use renameit::add::AddOptions;
use renameit::number::{NumberFormat, NumberMode};
use renameit::renamer_builder::RenamerBuilder;
use renameit::{
    Case, CaseOptions, ExtensionOptions, NameOptions, NumberOptions, Process, RegexOptions,
    RenameOption, Renamer, ReplaceOptions,
};

fn chars(s: &str) -> Vec<char> {
    s.chars().collect()
}

fn text(v: Vec<char>) -> String {
    v.into_iter().collect()
}

#[test]
fn test_regex() {
    let file = "Testfile123.txt";
    let expected = "TestfileABC.txt";
    let opt = RegexOptions {
        exp: "123".into(),
        rep: "ABC".into(),
        extension: false,
    };
    let mut rename = Renamer::new(file, false)
        .unwrap()
        .with_option(RenameOption::Regex(opt));
    let result = rename.preview(None);
    assert_eq!(result, expected)
}

#[test]
fn test_preview_does_not_reapply_options() {
    let expected = "aFile.txt";
    let mut renamer = RenamerBuilder::new_unchecked("file.txt", false)
        .with_case(Case::Title, false, String::new())
        .with_add(Some("a".into()), None, None, false)
        .build();
    let _ = renamer.preview(None);
    let actual = renamer.preview(None);
    assert_eq!(expected, actual);
}

#[test]
fn fixed_name_then_upper_case_with_exception() {
    let name = NameOptions::Fixed("new_name".into());
    let case = CaseOptions {
        case: Case::Upper,
        snake: false,
        exceptions: "n".into(),
    };
    let mut rename = Renamer::new("file.txt", false)
        .unwrap()
        .with_option(RenameOption::Name(name))
        .with_option(RenameOption::Case(case));
    assert_eq!(rename.preview(None), "nEW_nAME.txt");
}

#[test]
fn builder_replace_applies() {
    let mut renamer = RenamerBuilder::new_unchecked("file_with_a_name.txt", false)
        .with_replace("_".into(), "-".into(), false)
        .build();
    assert_eq!(renamer.preview(None), "file-with-a-name.txt");
}

#[test]
fn replace_matches_case_when_asked() {
    let insensitive = ReplaceOptions {
        replace: "ab".into(),
        with: "X".into(),
        case_sensative: false,
    };
    assert_eq!(text(insensitive.apply(&chars("aBcabAB"))), "XcXX");
    let sensitive = ReplaceOptions {
        case_sensative: true,
        ..insensitive.clone()
    };
    assert_eq!(text(sensitive.apply(&chars("aBcabAB"))), "aBcXAB");
    let empty = ReplaceOptions {
        replace: String::new(),
        with: "X".into(),
        case_sensative: true,
    };
    assert_eq!(text(empty.apply(&chars("abc"))), "abc");
}

#[test]
fn case_variants() {
    let opt = |case| CaseOptions {
        case,
        snake: false,
        exceptions: String::new(),
    };
    assert_eq!(text(opt(Case::Lower).apply(&chars("HeLLo World"))), "hello world");
    assert_eq!(text(opt(Case::Upper).apply(&chars("straße"))), "STRASSE");
    assert_eq!(text(opt(Case::Title).apply(&chars("the quick_brown-fox"))), "The Quick_Brown-Fox");
    assert_eq!(text(opt(Case::Sentence).apply(&chars("tHE END"))), "The end");
    assert_eq!(text(opt(Case::Keep).apply(&chars("MiXeD"))), "MiXeD");
    let snake = CaseOptions {
        case: Case::Lower,
        snake: true,
        exceptions: String::new(),
    };
    assert_eq!(text(snake.apply(&chars("My File"))), "my_file");
}

#[test]
fn add_prefix_insert_suffix_and_word_space() {
    let opt = AddOptions {
        prefix: Some("<".into()),
        insert: Some((2, "-".into())),
        suffix: Some(">".into()),
        word_space: false,
    };
    assert_eq!(text(opt.apply(&chars("abcd"))), "<ab-cd>");
    let back = AddOptions {
        insert: Some((-1, "-".into())),
        ..opt.clone()
    };
    assert_eq!(text(back.apply(&chars("abcd"))), "<abc-d>");
    let far = AddOptions {
        insert: Some((99, "-".into())),
        prefix: None,
        suffix: None,
        word_space: false,
    };
    assert_eq!(text(far.apply(&chars("ab"))), "ab-");
    let spaced = AddOptions {
        prefix: None,
        insert: None,
        suffix: None,
        word_space: true,
    };
    assert_eq!(text(spaced.apply(&chars("JoeBloggs HasA"))), "Joe Bloggs Has A");
}

#[test]
fn extension_options() {
    assert_eq!(ExtensionOptions::Upper.apply(Some("txt")), Some("TXT".into()));
    assert_eq!(ExtensionOptions::Title.apply(Some("tXT")), Some("Txt".into()));
    assert_eq!(ExtensionOptions::Lower.apply(Some("TxT")), Some("txt".into()));
    assert_eq!(ExtensionOptions::Extra("bak".into()).apply(Some("txt")), Some("txt.bak".into()));
    assert_eq!(ExtensionOptions::Extra("bak".into()).apply(None), Some("bak".into()));
    assert_eq!(ExtensionOptions::New("md".into()).apply(Some("txt")), Some("md".into()));
    assert_eq!(ExtensionOptions::Remove.apply(Some("txt")), None);
    assert_eq!(ExtensionOptions::Keep.apply(Some("txt")), Some("txt".into()));
    let mut file = Renamer::new("notes.txt", false)
        .unwrap()
        .with_option(RenameOption::Extension(ExtensionOptions::Extra("bak".into())));
    assert_eq!(file.preview(None), "notes.txt.bak");
    assert_eq!(file.extension(), Some("txt.bak"));
    file.revert();
    assert_eq!(file.extension(), Some("txt"));
    let mut slash = Renamer::new("notes.txt", false)
        .unwrap()
        .with_option(RenameOption::Extension(ExtensionOptions::New("a/b".into())));
    assert_eq!(slash.try_preview(None), None);
    assert_eq!(slash.extension(), Some("txt"));
}

#[test]
fn regex_over_the_extension_and_bad_expressions() {
    let opt = RegexOptions {
        exp: r"(\w+)\.txt".into(),
        rep: "${1}_old.md".into(),
        extension: true,
    };
    let mut file = Renamer::new("report.txt", false)
        .unwrap()
        .with_option(RenameOption::Regex(opt));
    assert_eq!(file.preview(None), "report_old.md");
    let bad = RegexOptions {
        exp: "(".into(),
        rep: "x".into(),
        extension: false,
    };
    let mut same = Renamer::new("report.txt", false)
        .unwrap()
        .with_option(RenameOption::Regex(bad));
    assert_eq!(same.preview(None), "report.txt");
}

#[test]
fn all_stages_apply_in_order() {
    let mut renamer = RenamerBuilder::new_unchecked("a_b.txt", false)
        .with_extension(ExtensionOptions::Upper)
        .with_number(NumberMode::Suffix, 7, 0, '0', "-".into(), NumberFormat::Decimal)
        .with_add(None, None, Some("!".into()), false)
        .with_case(Case::Upper, false, String::new())
        .with_replace("_".into(), " ".into(), true)
        .with_reg("a".into(), "x".into(), false)
        .build();
    assert_eq!(renamer.preview(None), "X B!-7.TXT");
}

#[test]
fn number_separator_colons_take_the_number() {
    let opt = NumberOptions {
        mode: NumberMode::Prefix,
        value: 1,
        pad: 0,
        char: '0',
        sep: "ABC:DEF:".into(),
        format: NumberFormat::Decimal,
    };
    assert_eq!(text(opt.apply(&chars("x"))), "1ABC1DEF1x");
}

#[test]
fn options_process_a_renamer() {
    let mut file = Renamer::new("my file.txt", false).unwrap();
    ReplaceOptions {
        replace: " ".into(),
        with: "_".into(),
        case_sensative: true,
    }
    .process(&mut file);
    assert_eq!(file.stem(), "my_file");
    CaseOptions {
        case: Case::Title,
        snake: false,
        exceptions: String::new(),
    }
    .process(&mut file);
    assert_eq!(file.stem(), "My_File");
    AddOptions {
        prefix: None,
        insert: None,
        suffix: Some("2".into()),
        word_space: false,
    }
    .process(&mut file);
    assert_eq!(file.stem(), "My_File2");
    ExtensionOptions::Upper.process(&mut file);
    assert_eq!(file.extension(), Some("TXT"));
    RegexOptions {
        exp: "[0-9]".into(),
        rep: "".into(),
        extension: false,
    }
    .process(&mut file);
    assert_eq!(file.stem(), "My_File");
}

#[test]
fn renamers_are_equal_when_their_paths_are() {
    let a = Renamer::new("dir/./name.txt", false).unwrap();
    let b = Renamer::new("dir/name.txt", false).unwrap();
    let c = Renamer::new("dir/other.txt", false).unwrap();
    assert!(a == b);
    assert!(a != c);
}

#[test]
fn no_options_keep_a_dotted_stem() {
    let mut file = Renamer::new("dir/a.b.txt", false).unwrap();
    assert_eq!(file.stem(), "a.b");
    assert_eq!(file.preview(None), "a.b.txt");
}

#[test]
fn batch_changes_clear_and_choose() {
    let mut files = vec![
        Renamer::new("ab.txt", false).unwrap(),
        Renamer::new("cd.txt", false).unwrap(),
        Renamer::new("ef.txt", false).unwrap(),
    ];
    let reverse = RenameOption::Name(NameOptions::Reverse);
    renameit::batch::choose_for(&mut files, vec![(0, reverse.clone()), (2, reverse.clone())]);
    assert_eq!(files[0].preview(None), "ba.txt");
    assert_eq!(files[1].preview(None), "cd.txt");
    assert_eq!(files[2].preview(None), "fe.txt");
    renameit::batch::clear_option_all(&mut files, &reverse);
    assert_eq!(files[0].renamed(), "");
    assert_eq!(files[0].stem(), "ab");
    assert_eq!(files[2].preview(None), "ef.txt");
}

#[test]
fn white_space_is_the_unicode_set() {
    for c in ['\t', '\n', ' ', '\u{85}', '\u{a0}', '\u{2003}', '\u{3000}'] {
        assert!(renameit::text::is_white(c));
        assert_eq!(renameit::text::is_white(c), c.is_whitespace());
    }
    for c in ['a', '_', '\u{200b}', '\u{feff}'] {
        assert!(!renameit::text::is_white(c));
        assert_eq!(renameit::text::is_white(c), c.is_whitespace());
    }
}
