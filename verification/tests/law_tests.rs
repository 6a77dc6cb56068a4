use renameit::date::{DateFormat, DateMode, DatePrefix, DateStamp, DateType};
use renameit::folder::FolderMode;
use renameit::number::{NumberFormat, NumberMode};
use renameit::renamer_builder::RenamerBuilder;
use renameit::{
    DateOptions, FolderOptions, NameOptions, NumberOptions, Process, RemoveOptions, RenameOption,
    Renamer,
};
use std::cmp::Ordering;

#[test]
fn preview_is_repeatable_and_revert_restores() {
    let mut r = RenamerBuilder::new("/x/y/abc.txt", false)
        .unwrap()
        .with_folder(FolderMode::Prefix, "-".into(), 1)
        .with_name(NameOptions::Reverse)
        .build();
    let first = r.preview(None);
    assert_eq!(first, "y-cba.txt");
    assert_eq!(r.preview(None), first);
    r.revert();
    assert_eq!(r.stem(), "abc");
    assert_eq!(r.extension(), Some("txt"));
    assert_eq!(r.renamed(), "");
}

#[test]
fn later_option_of_a_kind_replaces_earlier() {
    let mut r = Renamer::new("f.txt", false)
        .unwrap()
        .with_option(RenameOption::Name(NameOptions::Fixed("a".into())))
        .with_option(RenameOption::Name(NameOptions::Fixed("b".into())));
    assert_eq!(r.preview(None), "b.txt");
    r.remove_option(RenameOption::Name(NameOptions::Keep));
    assert_eq!(r.preview(None), "f.txt");
}

#[test]
fn reversing_twice_gives_back_the_name() {
    let mut f = Renamer::new("abc.d", false).unwrap();
    NameOptions::Reverse.process(&mut f);
    NameOptions::Reverse.process(&mut f);
    assert_eq!(f.stem(), "abc");
}

#[test]
fn numbering_leaves_stem_around_number() {
    let mut f = Renamer::new("stem.x", false).unwrap();
    NumberOptions {
        mode: NumberMode::Insert(2),
        value: 255,
        pad: 4,
        char: '0',
        sep: "|".into(),
        format: NumberFormat::HexLower,
    }
    .process(&mut f);
    assert_eq!(f.stem(), "st|00ff|em");
}

#[test]
fn removal_never_lengthens_and_clears_classes() {
    let mut f = Renamer::new("A1 b2  C3!", false).unwrap();
    let opt = RemoveOptions {
        digits: true,
        symbols: true,
        double_space: true,
        ..RemoveOptions::default()
    };
    opt.process(&mut f);
    assert_eq!(f.stem(), "A b C");
    assert!(f.stem().chars().count() <= "A1 b2  C3!".chars().count());
}

#[test]
fn folder_names_go_around_the_stem() {
    let mut f = Renamer::new("/p/q/r/s.t", false).unwrap();
    FolderOptions { mode: FolderMode::Suffix, sep: ".".into(), levels: -3 }.process(&mut f);
    assert_eq!(f.stem(), "sp.");
}

#[test]
fn date_goes_around_the_stem() {
    let stamp = DateStamp {
        year: 1999,
        month: 12,
        day: 31,
        hour: 23,
        minute: 59,
        second: 58,
        nanosecond: 0,
        offset_seconds: -18000,
    };
    let opt = DateOptions {
        date_mode: DateMode::Prefix,
        date_type: DateType::Modified,
        fmt: DateFormat::Std((DatePrefix::Ymd, None)),
        sep: " ".into(),
        seg: "-".into(),
        full_year: true,
    };
    assert_eq!(opt.date_stem("s", Some(stamp)).unwrap(), "1999-12-31 s");
    let custom = DateOptions { fmt: DateFormat::Custom("%z".into()), ..opt };
    assert_eq!(custom.date_stem("s", Some(stamp)).unwrap(), "-0500 s");
}

#[test]
fn renamers_order_directories_first_then_by_name() {
    let dir = Renamer::new("zzz", true).unwrap();
    let a = Renamer::new("a.txt", false).unwrap();
    let b = Renamer::new("b", false).unwrap();
    let ab = Renamer::new("ab", false).unwrap();
    assert_eq!(a.cmp(&ab), Ordering::Greater);
    assert_eq!(dir.cmp(&a), Ordering::Less);
    assert_eq!(a.cmp(&dir), Ordering::Greater);
    assert_eq!(a.cmp(&b), Ordering::Less);
    assert_eq!(b.cmp(&a), Ordering::Greater);
    assert_eq!(a.cmp(&a.clone()), Ordering::Equal);
    assert_eq!(a.partial_cmp(&b), Some(Ordering::Less));
}

#[test]
fn renamers_equal_by_path_components() {
    let a = Renamer::new("dir//x.txt", false).unwrap();
    let b = Renamer::new("dir/./x.txt", false).unwrap();
    let c = Renamer::new("dir/y.txt", false).unwrap();
    assert!(a == b);
    assert!(a != c);
}
