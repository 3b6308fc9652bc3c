use dirnav::entry::{listing_lines, DirectoryEntry, EntryKind};
use dirnav::navigator::DirectoryNavigator;
use dirnav::table::{directory_table, fits_table};
use prettytable::Table;

fn cell_text(t: &Table, row: usize, col: usize) -> String {
    t.get_row(row).unwrap().get_cell(col).unwrap().get_content()
}

#[test]
fn classify_and_label() {
    assert_eq!(EntryKind::classify(true), EntryKind::Directory);
    assert_eq!(EntryKind::classify(false), EntryKind::File);
    assert_eq!(EntryKind::Directory.label(), "Directory");
    assert_eq!(EntryKind::File.label(), "File");
}

#[test]
fn a_file_and_a_directory_are_classified() {
    let entries = vec![
        DirectoryEntry::new("a.txt".to_string(), false),
        DirectoryEntry::new("b".to_string(), true),
    ];
    assert_eq!(entries.len(), 2);
    assert_eq!(entries[0].kind, EntryKind::File);
    assert_eq!(entries[1].kind, EntryKind::Directory);
    assert_eq!(listing_lines(&entries), vec!["a.txt".to_string(), "b/".to_string()]);
}

#[test]
fn table_has_header_and_one_row_per_entry() {
    let entries = vec![
        DirectoryEntry::new("a.txt".to_string(), false),
        DirectoryEntry::new("b".to_string(), true),
    ];
    let t = directory_table(&entries);
    assert_eq!(t.len(), 3);
    assert_eq!(cell_text(&t, 0, 0), "Name");
    assert_eq!(cell_text(&t, 0, 1), "Type");
    assert_eq!(cell_text(&t, 1, 0), "a.txt");
    assert_eq!(cell_text(&t, 1, 1), "File");
    assert_eq!(cell_text(&t, 2, 0), "b");
    assert_eq!(cell_text(&t, 2, 1), "Directory");
}

#[test]
fn empty_listing() {
    let entries: Vec<DirectoryEntry> = Vec::new();
    assert!(listing_lines(&entries).is_empty());
    let t = directory_table(&entries);
    assert_eq!(t.len(), 1);
    assert_eq!(cell_text(&t, 0, 0), "Name");
}

#[test]
fn end_to_end_session() {
    let mut nav = DirectoryNavigator::new("/repo".to_string());
    assert_eq!(nav.current_dir(), "/repo");
    assert!(nav.go_to_dir("src", Some(EntryKind::Directory)).is_ok());
    assert_eq!(nav.current_dir(), "/repo/src");
    let inside = vec![DirectoryEntry::new("main.ext".to_string(), false)];
    assert_eq!(listing_lines(&inside), vec!["main.ext".to_string()]);
    let t = nav.display_directory_structure(&inside);
    assert_eq!(t.len(), 2);
    assert_eq!(cell_text(&t, 1, 0), "main.ext");
    assert_eq!(cell_text(&t, 1, 1), "File");
    assert!(nav.go_to_parent_dir().is_ok());
    assert_eq!(nav.current_dir(), "/repo");
    let top = vec![
        DirectoryEntry::new("src".to_string(), true),
        DirectoryEntry::new("README".to_string(), false),
    ];
    assert_eq!(listing_lines(&top), vec!["src/".to_string(), "README".to_string()]);
    let t = nav.display_directory_structure(&top);
    assert_eq!(t.len(), 3);
    assert_eq!(cell_text(&t, 1, 1), "Directory");
    assert_eq!(cell_text(&t, 2, 0), "README");
}

#[test]
fn names_with_an_escape_do_not_fit_a_table() {
    let plain = vec![DirectoryEntry::new("a.txt".to_string(), false)];
    assert!(fits_table(&plain));
    let escaped = vec![
        DirectoryEntry::new("a.txt".to_string(), false),
        DirectoryEntry::new("\u{1b}[x".to_string(), false),
    ];
    assert!(!fits_table(&escaped));
    assert!(fits_table(&Vec::new()));
}

#[test]
fn a_name_with_line_breaks_is_split_into_lines() {
    let entries = vec![DirectoryEntry::new("x\r\ny\n".to_string(), false)];
    assert!(fits_table(&entries));
    let t = directory_table(&entries);
    assert_eq!(t.len(), 2);
    assert_eq!(cell_text(&t, 1, 0), "x\ny");
    assert_eq!(cell_text(&t, 1, 1), "File");
}
