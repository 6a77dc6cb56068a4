use renameit::{Process, RemoveOptions, Renamer};

fn options() -> RemoveOptions {
    RemoveOptions {
        first_n: 0,
        last_n: 0,
        range: (0, 0),
        characters: "".into(),
        words: "".into(),
        crop: (true, "".into()),
        digits: false,
        ascii_high: false,
        trim: false,
        double_space: false,
        english_letters: false,
        symbols: false,
        lead_dots: false,
    }
}

#[test]
fn combined_removals() {
    let first_n = 2;
    let last_n = 2;
    let range = (0, 2);
    let characters = "ft".into();
    let words = "ile w*h".into();
    let crop = (true, "".into());
    let digits = true;
    let ascii_high = true;
    let trim = true;
    let double_space = true;
    let chars = false;
    let symbols = true;
    let lead_dots = false;
    let mut file = Renamer::new("some test file  1234withÃ!  testing", false).unwrap();
    let opt = RemoveOptions {
        first_n,
        last_n,
        range,
        characters,
        words,
        crop,
        digits,
        ascii_high,
        trim,
        double_space,
        english_letters: chars,
        symbols,
        lead_dots,
    };
    opt.process(&mut file);
    assert_eq!(file.stem(), String::from("es esi"))
}

#[test]
fn test_too_many_removed_from_end() {
    let mut file = Renamer::new("test_file", false).unwrap();
    let opt = RemoveOptions { first_n: 6, last_n: 4, ..options() };
    opt.process(&mut file);
    assert_eq!(file.stem(), String::from(""))
}

#[test]
fn test_too_many_removed_total() {
    let mut file = Renamer::new("test_file", false).unwrap();
    let opt = RemoveOptions { first_n: 60, last_n: 4, ..options() };
    opt.process(&mut file);
    assert_eq!(file.stem(), String::from(""))
}

#[test]
fn crop_before() {
    let mut file = Renamer::new("file to test", false).unwrap();
    let opt = RemoveOptions { crop: (true, "to".into()), lead_dots: true, ..options() };
    opt.process(&mut file);
    assert_eq!(file.stem(), String::from("to test"));
}

#[test]
fn remove_chars_lead_dot() {
    let mut file = Renamer::new("./.file123", false).unwrap();
    let opt = RemoveOptions { english_letters: true, lead_dots: true, ..options() };
    opt.process(&mut file);
    assert_eq!(file.stem(), String::from("123"));
}

#[test]
fn crop_after_found() {
    let mut file = Renamer::new(".file123", false).unwrap();
    let opt = RemoveOptions { crop: (false, "file".into()), lead_dots: true, ..options() };
    opt.process(&mut file);
    assert_eq!(file.stem(), String::from("file"));
}

#[test]
fn wildcard_word_removes_bracketed_text() {
    let mut file = Renamer::new("Hello[ABC] Joe", false).unwrap();
    let opt = RemoveOptions { words: "[*]".into(), ..options() };
    opt.process(&mut file);
    assert_eq!(file.stem(), "Hello Joe");
}

#[test]
fn backward_wildcard_is_reported() {
    let opt = RemoveOptions { words: "b*".into(), ..options() };
    let stem: Vec<char> = "ab".chars().collect();
    assert_eq!(opt.removed(&stem), None);
    let opt = RemoveOptions { first_n: usize::MAX, last_n: 1, ..options() };
    assert_eq!(opt.removed(&stem), None);
}

#[test]
fn range_counts_characters_and_trim_and_spaces() {
    let mut file = Renamer::new("  a   b  ", false).unwrap();
    let opt = RemoveOptions { trim: true, double_space: true, ..options() };
    opt.process(&mut file);
    assert_eq!(file.stem(), "a b");
    let mut file = Renamer::new("0123456789", false).unwrap();
    let opt = RemoveOptions { range: (2, 5), ..options() };
    opt.process(&mut file);
    assert_eq!(file.stem(), "0156789");
}
