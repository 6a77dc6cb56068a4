use renameit::number::{NumberFormat, NumberMode};
use renameit::views::add_view::{self, AddView};
use renameit::views::extension_view::Opt;
use renameit::views::files::{compare_rows, FileRow, Selection, SortState};
use renameit::views::name_view::Choice;
use renameit::views::number_view::{Formats, Modes, Numbering};
use renameit::views::regex_view::{self, RegexView};
use renameit::views::remove_view::{self, BoolField, NumField, RemoveView, StrField};
use renameit::views::replace_view::{self, ReplaceView};
use renameit::views::Action;
use renameit::{ExtensionOptions, NameOptions, RenameOption};
use std::cmp::Ordering;
use std::collections::HashSet;

#[test]
fn remove_view_keeps_range_ordered() {
    let mut v = RemoveView::default();
    assert_eq!(v.update(remove_view::Message::Num(NumField::End, 5)), Action::Update);
    assert_eq!((v.start, v.end), (0, 5));
    v.update(remove_view::Message::Num(NumField::Start, 9));
    assert_eq!((v.start, v.end), (9, 9));
    v.update(remove_view::Message::Num(NumField::End, 3));
    assert_eq!((v.start, v.end), (3, 3));
    v.update(remove_view::Message::Str(StrField::Word, "ab".into()));
    v.update(remove_view::Message::Bool(BoolField::Location, false));
    match v.to_options(0) {
        RenameOption::Remove(o) => {
            assert_eq!(o.range, (3, 3));
            assert_eq!(o.words, "ab");
            assert!(!o.crop.0);
        }
        _ => panic!("not a removal"),
    }
    assert_eq!(v.update(remove_view::Message::Reset), Action::Remove);
    assert_eq!(v.location, Some(true));
    assert_eq!(v.words, "");
}

#[test]
fn add_view_skips_empty_texts() {
    let mut v = AddView::default();
    v.update(add_view::Message::ChangedText((add_view::Field::Prefix, "pre".into())));
    v.update(add_view::Message::NumberChanged(-2));
    match v.to_options(0) {
        RenameOption::Add(o) => {
            assert_eq!(o.prefix, Some("pre".to_string()));
            assert_eq!(o.insert, None);
            assert_eq!(o.suffix, None);
        }
        _ => panic!("not an addition"),
    }
    assert_eq!(v.update(add_view::Message::Reset), Action::Remove);
    assert_eq!(v.prefix, "");
}

#[test]
fn regex_and_replace_views_update_fields() {
    let mut r = RegexView::default();
    r.update(regex_view::Message::ChangedText((regex_view::Field::Expression, "1+".into())));
    r.update(regex_view::Message::BoxToggle(true));
    match r.to_options(0) {
        RenameOption::Regex(o) => {
            assert_eq!(o.exp, "1+");
            assert!(o.extension);
        }
        _ => panic!("not a regex"),
    }
    let mut p = ReplaceView::default();
    p.update(replace_view::Message::Update(replace_view::Field::With, "-".into()));
    assert_eq!(p.to_options(0).with, "-");
    assert_eq!(p.update(replace_view::Message::Reset), Action::Remove);
}

#[test]
fn numbering_counts_from_start_by_step() {
    let n = Numbering {
        mode: Modes::Insert,
        format: Formats::Hex,
        pos: 2,
        start: 1,
        step: 3,
        pad: 2,
        char: String::new(),
        sep: "_".into(),
        upper: true,
    };
    match n.to_options(4) {
        RenameOption::Number(o) => {
            assert_eq!(o.value, 13);
            assert_eq!(o.char, '0');
            assert_eq!(o.mode, NumberMode::Insert(2));
            assert_eq!(o.format, NumberFormat::HexUpper);
            assert_eq!(o.number_value(), "0D");
        }
        _ => panic!("not a number"),
    }
    let letters = Numbering {
        format: Formats::Ascii,
        upper: false,
        ..n.clone()
    };
    match letters.to_options(0) {
        RenameOption::Number(o) => assert_eq!(o.char, 'a'),
        _ => panic!("not a number"),
    }
    assert_eq!(Modes::Off.label(), "None");
    assert_eq!(Formats::Ascii.label(), "A-Z");
}

#[test]
fn name_and_extension_choices() {
    assert_eq!(Choice::to_option_box(None, &"x".to_string()), NameOptions::Keep);
    assert_eq!(
        Choice::to_option_box(Some(Choice::Fixed), &"x".to_string()),
        NameOptions::Fixed("x".into())
    );
    match Opt::to_options(Some(Opt::Extra), &"bak".to_string()) {
        RenameOption::Extension(o) => assert_eq!(o, ExtensionOptions::Extra("bak".into())),
        _ => panic!("not an extension"),
    }
    assert_eq!(Opt::Title.label(), "Title");
}

#[test]
fn selection_follows_modifier_keys() {
    let mut s = Selection::new();
    s.press(3, false, false);
    assert_eq!(s.selected, HashSet::from([3]));
    s.press(6, false, true);
    assert_eq!(s.selected, HashSet::from([3, 4, 5, 6]));
    assert_eq!(s.last_row_selected, Some(3));
    s.press(4, true, false);
    assert_eq!(s.selected, HashSet::from([3, 5, 6]));
    s.press(1, true, true);
    assert_eq!(s.selected, HashSet::from([1, 2, 3, 4, 5, 6]));
    let mut t = Selection::new();
    t.press(2, true, true);
    assert_eq!(t.selected, HashSet::from([2]));
    assert_eq!(t.last_row_selected, Some(2));
}

#[test]
fn sort_state_and_row_order() {
    let mut s = SortState::new();
    assert!(!s.header_pressed(2));
    assert!(s.header_pressed(3));
    assert_eq!((s.column, s.ascending), (Some(3), true));
    assert!(s.header_pressed(3));
    assert_eq!((s.column, s.ascending), (Some(3), false));
    assert_eq!(s.indicator(3), Some(false));
    assert_eq!(s.indicator(0), None);
    let a = FileRow {
        original: "a".into(),
        extension: "txt".into(),
        is_dir: false,
        size: None,
        modified: Some(5),
        created: None,
    };
    let b = FileRow {
        original: "b".into(),
        extension: "".into(),
        is_dir: true,
        size: Some(1),
        modified: Some(2),
        created: None,
    };
    assert_eq!(compare_rows(0, &a, &b, true), Ordering::Less);
    assert_eq!(compare_rows(0, &a, &b, false), Ordering::Greater);
    assert_eq!(compare_rows(1, &a, &b, true), Ordering::Greater);
    assert_eq!(compare_rows(2, &a, &b, true), Ordering::Equal);
    assert_eq!(compare_rows(3, &a, &b, true), Ordering::Less);
    assert_eq!(compare_rows(4, &a, &b, true), Ordering::Greater);
    assert_eq!(compare_rows(5, &a, &b, true), Ordering::Equal);
}
