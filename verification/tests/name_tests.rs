use renameit::{NameOptions, Process, RenameOption, Renamer};

#[test]
fn keep_name() {
    let mut file = Renamer::new("file", false).unwrap();
    let opt = NameOptions::Keep;
    opt.process(&mut file);
    assert_eq!(file.stem(), "file");
}

#[test]
fn remove_name() {
    let mut file = Renamer::new("file", false).unwrap();
    let opt = NameOptions::Remove;
    opt.process(&mut file);
    assert_eq!(file.stem(), "");
}

#[test]
fn fixed_name() {
    let mut file = Renamer::new("file", false).unwrap();
    let new_name = "renamed_file";
    let opt = NameOptions::Fixed(String::from(new_name));
    opt.process(&mut file);
    assert_eq!(file.stem(), new_name);
}

#[test]
fn reverse_name() {
    let mut file = Renamer::new("file", false).unwrap();
    let opt = NameOptions::Reverse;
    opt.process(&mut file);
    assert_eq!(file.stem(), "elif");
}

#[test]
fn test_name() {
    let file = "file.txt";
    let expected = String::from("new_name.txt");
    let name = NameOptions::Fixed("new_name".into());
    let mut rename = Renamer::new(file, false)
        .unwrap()
        .with_option(RenameOption::Name(name));
    let new_name = rename.preview(None);
    assert_eq!(new_name, expected)
}

#[test]
fn name_options_listed_in_order() {
    let all = NameOptions::iter();
    assert_eq!(
        all,
        vec![
            NameOptions::Keep,
            NameOptions::Remove,
            NameOptions::Fixed(String::new()),
            NameOptions::Reverse
        ]
    );
}

#[test]
fn reverse_non_ascii_name() {
    let mut file = Renamer::new("añb€.txt", false).unwrap();
    NameOptions::Reverse.process(&mut file);
    assert_eq!(file.stem(), "€bña");
}
