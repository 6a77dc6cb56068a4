use renameit::number::{NumberFormat, NumberMode};
use renameit::{NumberOptions, Process, Renamer};

fn vec_compare(va: &[String], vb: &[String]) -> bool {
    (va.len() == vb.len()) && va.iter().zip(vb).all(|(a, b)| a == b)
}

#[test]
fn prefix_decimal_with_padding() {
    let mut files = (0..10)
        .map(|_| Renamer::new("TestFile.txt", false).unwrap())
        .collect::<Vec<Renamer>>();
    let pad = 2;
    let char = '0';
    let sep = "--";
    for (value, file) in files.iter_mut().enumerate() {
        let format = NumberFormat::Decimal;
        let mode = NumberMode::Prefix;
        let opt = NumberOptions {
            mode,
            value: (&value + 1) as u32,
            pad,
            char,
            sep: String::from(sep),
            format,
        };
        opt.process(file);
    }
    let expected = (1..=10)
        .map(|i| format!("{i:02}--TestFile"))
        .collect::<Vec<String>>();
    let result = files
        .iter()
        .map(|f| f.stem().to_string())
        .collect::<Vec<String>>();
    assert!(vec_compare(&result, &expected));
}

#[test]
fn suffix_binary_no_padding() {
    let mut file = Renamer::new("TestFile.txt", false).unwrap();
    let format = NumberFormat::Binary;
    let value = 5;
    let pad = 0;
    let char = '0';
    let sep = ".".into();
    let mode = NumberMode::Suffix;
    let opt = NumberOptions {
        mode,
        value,
        pad,
        char,
        sep,
        format,
    };
    opt.process(&mut file);
    assert_eq!(file.stem(), "TestFile.101");
}

#[test]
fn insert_asciiupper() {
    let mut file = Renamer::new("TestFile.txt", false).unwrap();
    let format = NumberFormat::AsciiUpper;
    let value = 50;
    let pad = 0;
    let char = '0';
    let sep = "_".into();
    let mode = NumberMode::Insert(4);
    let opt = NumberOptions {
        mode,
        value,
        pad,
        char,
        sep,
        format,
    };
    opt.process(&mut file);
    assert_eq!(file.stem(), "Test_AX_File");
}

fn number(format: NumberFormat, value: u32, pad: usize, char: char) -> String {
    NumberOptions {
        mode: NumberMode::Prefix,
        value,
        pad,
        char,
        sep: String::new(),
        format,
    }
    .number_value()
}

#[test]
fn number_formats_in_each_base() {
    assert_eq!(number(NumberFormat::Decimal, 0, 0, '0'), "0");
    assert_eq!(number(NumberFormat::Decimal, 4294967295, 0, '0'), "4294967295");
    assert_eq!(number(NumberFormat::Binary, 0, 0, '0'), "0");
    assert_eq!(number(NumberFormat::Octal, 64, 0, '0'), "100");
    assert_eq!(number(NumberFormat::HexUpper, 48879, 0, '0'), "BEEF");
    assert_eq!(number(NumberFormat::HexLower, 48879, 0, '0'), "beef");
}

#[test]
fn number_letters_are_bijective_base_26() {
    assert_eq!(number(NumberFormat::AsciiUpper, 0, 0, 'A'), "");
    assert_eq!(number(NumberFormat::AsciiUpper, 1, 0, 'A'), "A");
    assert_eq!(number(NumberFormat::AsciiUpper, 26, 0, 'A'), "Z");
    assert_eq!(number(NumberFormat::AsciiUpper, 27, 0, 'A'), "AA");
    assert_eq!(number(NumberFormat::AsciiLower, 702, 0, 'a'), "zz");
    assert_eq!(number(NumberFormat::AsciiLower, 703, 0, 'a'), "aaa");
}

#[test]
fn number_padding_fills_on_the_left() {
    assert_eq!(number(NumberFormat::Decimal, 7, 3, '0'), "007");
    assert_eq!(number(NumberFormat::Decimal, 1234, 3, '0'), "1234");
    assert_eq!(number(NumberFormat::AsciiUpper, 1, 3, '_'), "__A");
}

#[test]
fn insert_past_the_end_appends() {
    let mut file = Renamer::new("ab.txt", false).unwrap();
    let opt = NumberOptions {
        mode: NumberMode::Insert(10),
        value: 3,
        pad: 0,
        char: '0',
        sep: "-".into(),
        format: NumberFormat::Decimal,
    };
    opt.process(&mut file);
    assert_eq!(file.stem(), "ab-3-");
}
