use renameit::date::{DateFormat, DateMode, DatePrefix, DateSuffix, DateType};
use renameit::folder::FolderMode;
use renameit::views::case_view::{self, CaseView};
use renameit::views::date_view::{self, DateView, Field};
use renameit::views::extension_view::{self, ExtensionView, Opt};
use renameit::views::folder_view::{self, FolderView};
use renameit::views::name_view::{self, Choice, NameView};
use renameit::views::number_view::{self, Formats, Modes, NumberView};
use renameit::views::Action;
use renameit::{Case, ExtensionOptions, NameOptions, RenameOption};

#[test]
fn folder_panel_switches_on_when_edited() {
    let mut v = FolderView::default();
    assert_eq!(v.selected, Some(FolderMode::Off));
    assert_eq!(v.levels, 1);
    assert_eq!(v.update(folder_view::Message::UpdateText("-".into())), Action::Update);
    assert_eq!(v.selected, Some(FolderMode::Prefix));
    v.update(folder_view::Message::UpdateSelected(FolderMode::Off));
    assert_eq!(v.selected, Some(FolderMode::Off));
    v.update(folder_view::Message::UpdateNumber(3));
    assert_eq!(v.selected, Some(FolderMode::Prefix));
    v.update(folder_view::Message::UpdateSelected(FolderMode::Suffix));
    v.update(folder_view::Message::UpdateNumber(-2));
    assert_eq!(v.selected, Some(FolderMode::Suffix));
    let o = v.to_option_box();
    assert_eq!((o.mode, o.sep.as_str(), o.levels), (FolderMode::Suffix, "-", -2));
    assert_eq!(v.update(folder_view::Message::Reset), Action::Remove);
    assert_eq!((v.selected, v.sep.as_str(), v.levels), (Some(FolderMode::Off), "", 1));
}

#[test]
fn case_panel_reset_keeps_snake() {
    let mut v = CaseView::default();
    v.update(case_view::Message::ChangeSelected(Case::Upper));
    v.update(case_view::Message::Toggle(true));
    v.update(case_view::Message::Update("xy".into()));
    let o = v.to_option_box();
    assert_eq!((o.case, o.snake, o.exceptions.as_str()), (Case::Upper, true, "xy"));
    assert_eq!(v.update(case_view::Message::Reset), Action::Remove);
    assert_eq!((v.selected, v.snake, v.exceptions.as_str()), (Some(Case::Keep), true, ""));
    assert_eq!(CaseView::label(Case::Sentence), "Sentence");
}

#[test]
fn name_panel_gives_fixed_name() {
    let mut v = NameView::default();
    assert_eq!(v.to_option_box(), NameOptions::Keep);
    v.update(name_view::Message::Update("abc".into()));
    v.update(name_view::Message::ChangeVersion(Choice::Fixed));
    assert_eq!(v.to_option_box(), NameOptions::Fixed("abc".into()));
    v.update(name_view::Message::ChangeVersion(Choice::Reverse));
    assert_eq!(v.to_option_box(), NameOptions::Reverse);
    assert_eq!(v.update(name_view::Message::Reset), Action::Remove);
    assert_eq!((v.version, v.text.as_str()), (Some(Choice::Keep), ""));
}

#[test]
fn extension_panel_asks_for_text() {
    let mut v = ExtensionView::default();
    assert!(!v.wants_text());
    v.update(extension_view::Message::UpdateSelected(Opt::Extra));
    v.update(extension_view::Message::UpdateText("bak".into()));
    assert!(v.wants_text());
    match v.to_option_box() {
        RenameOption::Extension(o) => assert_eq!(o, ExtensionOptions::Extra("bak".into())),
        _ => panic!("not an extension option"),
    }
    assert_eq!(v.update(extension_view::Message::Reset), Action::Remove);
    assert_eq!((v.selected, v.text.as_str()), (Some(Opt::Keep), ""));
}

#[test]
fn date_panel_reset_leaves_segment() {
    let mut v = DateView::default();
    v.update(date_view::Message::ChangeMode(DateMode::Suffix));
    v.update(date_view::Message::ChangeType(DateType::Modified));
    v.update(date_view::Message::ChangeFormat(DateFormat::Std((
        DatePrefix::Ymd,
        Some(DateSuffix::Hm),
    ))));
    v.update(date_view::Message::Update(Field::Sep, "_".into()));
    v.update(date_view::Message::Update(Field::Seg, ".".into()));
    v.update(date_view::Message::Toggle(true));
    assert!(!v.wants_custom());
    let o = v.to_options();
    assert_eq!(o.date_mode, DateMode::Suffix);
    assert_eq!(o.date_type, DateType::Modified);
    assert_eq!(o.fmt, DateFormat::Std((DatePrefix::Ymd, Some(DateSuffix::Hm))));
    assert_eq!((o.sep.as_str(), o.seg.as_str(), o.full_year), ("_", ".", true));
    assert_eq!(v.update(date_view::Message::Reset), Action::Remove);
    assert_eq!(v.date_mode, Some(DateMode::Off));
    assert_eq!(v.date_format, Some(DateFormat::Std((DatePrefix::Dmy, None))));
    assert_eq!((v.sep.as_str(), v.seg.as_str(), v.full_year), ("", ".", true));
    v.update(date_view::Message::ChangeFormat(DateFormat::Custom("%Y".into())));
    assert!(v.wants_custom());
}

#[test]
fn number_panel_keeps_last_char_and_switches_on() {
    let mut v = NumberView::default();
    assert_eq!(v.mode, Some(Modes::Off));
    assert_eq!(v.update(number_view::Message::Char("xyz".into())), Action::Update);
    assert_eq!(v.numbering.char, "z");
    assert_eq!(v.mode, Some(Modes::Prefix));
    v.update(number_view::Message::Char(String::new()));
    assert_eq!(v.numbering.char, "");
    v.update(number_view::Message::Mode(Modes::Off));
    assert_eq!(v.mode, Some(Modes::Off));
    v.update(number_view::Message::Format(Formats::Hex));
    assert_eq!(v.mode, Some(Modes::Prefix));
    v.update(number_view::Message::Start(5));
    v.update(number_view::Message::Step(2));
    v.update(number_view::Message::Upper(true));
    let n = v.to_option_box();
    assert_eq!((n.mode, n.format, n.start, n.step, n.upper), (Modes::Prefix, Formats::Hex, 5, 2, true));
    assert_eq!(v.update(number_view::Message::Reset), Action::Remove);
    assert_eq!((v.mode, v.format), (Some(Modes::Off), Some(Formats::Decimal)));
    assert_eq!((v.numbering.start, v.numbering.step), (1, 1));
}
