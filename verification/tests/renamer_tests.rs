use renameit::number::{NumberFormat, NumberMode};
use renameit::renamer_builder::{RenamerBuilder, Toggle};
use renameit::{FileError, NameOptions, RenameOption, Renamer};

#[test]
fn new_splits_stem_and_extension() {
    let file = Renamer::new("dir/name.tar.gz", false).unwrap();
    assert_eq!(file.stem(), "name.tar");
    assert_eq!(file.extension(), Some("gz"));
    assert!(file.is_valid());
    assert!(!file.is_dir());
    let dot = Renamer::new(".hidden", true).unwrap();
    assert_eq!(dot.stem(), ".hidden");
    assert_eq!(dot.extension(), None);
    assert!(dot.is_dir());
}

#[test]
fn new_without_file_name_is_bad_stem() {
    assert!(matches!(Renamer::new("/", false), Err(FileError::BadStem)));
    assert!(matches!(Renamer::new("..", false), Err(FileError::BadStem)));
}

#[test]
fn preview_twice_gives_same_name_and_revert_restores() {
    let mut renamer = RenamerBuilder::new_unchecked("file.txt", false)
        .with_name(NameOptions::Reverse)
        .with_number(NumberMode::Suffix, 3, 2, '0', "_".into(), NumberFormat::Decimal)
        .build();
    let first = renamer.preview(None);
    let second = renamer.preview(None);
    assert_eq!(first, "elif_03.txt");
    assert_eq!(first, second);
    assert_eq!(renamer.renamed(), "elif_03.txt");
    renamer.revert();
    assert_eq!(renamer.stem(), "file");
    assert_eq!(renamer.renamed(), "");
}

#[test]
fn remove_and_clear_options() {
    let mut renamer = Renamer::new("file.txt", false)
        .unwrap()
        .with_option(RenameOption::Name(NameOptions::Remove));
    assert_eq!(renamer.preview(None), ".txt");
    renamer.remove_option(RenameOption::Name(NameOptions::Keep));
    assert_eq!(renamer.preview(None), "file.txt");
    renamer.add_option(RenameOption::Name(NameOptions::Fixed("x".into())));
    assert_eq!(renamer.preview(None), "x.txt");
    renamer.clear_options();
    assert_eq!(renamer.preview(None), "file.txt");
}

#[test]
fn builder_remove_uses_toggles() {
    let mut renamer = RenamerBuilder::new("a1b2.txt", false)
        .unwrap()
        .with_remove([0, 0, 0, 0], String::new(), String::new(), (true, String::new()), vec![Toggle::Digits])
        .build();
    assert_eq!(renamer.preview(None), "ab.txt");
}

#[test]
fn try_preview_reports_backward_wildcard() {
    let mut renamer = RenamerBuilder::new("ab.txt", false)
        .unwrap()
        .with_remove([0, 0, 0, 0], String::new(), "b*".into(), (true, String::new()), vec![])
        .build();
    assert_eq!(renamer.try_preview(None), None);
    assert_eq!(renamer.stem(), "ab");
}
