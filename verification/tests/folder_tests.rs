use renameit::folder::FolderMode;
use renameit::{FolderOptions, Process, Renamer};

#[test]
fn prefix_two_levels() {
    let mut file = Renamer::new("/some/file/path/to/test file.txt", false).unwrap();
    let mode = FolderMode::Prefix;
    let sep = "~".into();
    let levels = 2;
    let opt = FolderOptions { mode, sep, levels };
    opt.process(&mut file);
    assert_eq!(file.stem(), "path~to~test file".to_string())
}

#[test]
fn suffix_negative_two_levels() {
    let mut file = Renamer::new(r"/some/file/path/to/test file.txt", false).unwrap();
    let mode = FolderMode::Prefix;
    let sep = "~".into();
    let levels = -2;
    let opt = FolderOptions { mode, sep, levels };
    opt.process(&mut file);
    assert_eq!(file.stem(), "path~test file".to_string())
}

#[test]
fn suffix_adds_nearest_folder_first() {
    let mut file = Renamer::new("/a/b/c.txt", false).unwrap();
    let opt = FolderOptions { mode: FolderMode::Suffix, sep: "+".into(), levels: 5 };
    opt.process(&mut file);
    assert_eq!(file.stem(), "cb+a+");
}

#[test]
fn folder_mode_off_and_zero_levels_leave_stem() {
    let mut file = Renamer::new("/a/b/c.txt", false).unwrap();
    FolderOptions { mode: FolderMode::Off, sep: "+".into(), levels: 5 }.process(&mut file);
    assert_eq!(file.stem(), "c");
    FolderOptions { mode: FolderMode::Prefix, sep: "+".into(), levels: 0 }.process(&mut file);
    assert_eq!(file.stem(), "c");
}
