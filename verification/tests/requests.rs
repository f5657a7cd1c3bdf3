use file_access::{
    append_to_file, create_file, handle_or_nothing, open_buffered_file_appender,
    open_buffered_file_writer, open_file, open_file_for_appending, open_file_for_writing,
    write_to_file, Failure, FileEntry, OpenMode, OpenRequest, WriteRequest,
};

fn mode(read: bool, write: bool, append: bool, truncate: bool, create: bool) -> OpenMode {
    OpenMode { read, write, append, truncate, create }
}

#[test]
fn modes_set_exactly_their_switches() {
    assert_eq!(OpenMode::reading(), mode(true, false, false, false, false));
    assert_eq!(OpenMode::writing(true), mode(false, true, false, true, true));
    assert_eq!(OpenMode::writing(false), mode(false, true, false, false, true));
    assert_eq!(OpenMode::appending(), mode(false, false, true, false, true));
}

#[test]
fn modes_of_the_library_are_accepted() {
    assert!(OpenMode::reading().is_accepted());
    assert!(OpenMode::writing(true).is_accepted());
    assert!(OpenMode::writing(false).is_accepted());
    assert!(OpenMode::appending().is_accepted());
    assert!(!OpenMode::reading().is_writable());
    assert!(OpenMode::writing(false).is_writable());
    assert!(OpenMode::appending().is_writable());
}

#[test]
fn switches_that_do_not_go_together_are_not_accepted() {
    assert!(!mode(false, false, false, false, false).is_accepted());
    assert!(!mode(true, false, false, true, false).is_accepted());
    assert!(!mode(true, false, false, false, true).is_accepted());
    assert!(!mode(false, false, true, true, false).is_accepted());
    assert!(!mode(false, true, true, true, true).is_accepted());
    assert!(mode(true, true, false, false, false).is_accepted());
    assert!(mode(true, false, true, false, true).is_accepted());
    assert!(mode(false, true, true, false, true).is_accepted());
}

#[test]
fn open_requests_name_the_file_and_the_mode() {
    assert_eq!(
        open_file("a/b.txt"),
        OpenRequest { path: "a/b.txt".to_owned(), mode: OpenMode::reading(), buffered: true }
    );
    assert_eq!(
        open_file_for_writing("w", true),
        OpenRequest { path: "w".to_owned(), mode: OpenMode::writing(true), buffered: false }
    );
    assert_eq!(
        open_file_for_writing("w", false),
        OpenRequest { path: "w".to_owned(), mode: OpenMode::writing(false), buffered: false }
    );
    assert_eq!(
        open_file_for_appending("a"),
        OpenRequest { path: "a".to_owned(), mode: OpenMode::appending(), buffered: false }
    );
    assert_eq!(
        open_buffered_file_writer("w", true),
        OpenRequest { path: "w".to_owned(), mode: OpenMode::writing(true), buffered: true }
    );
    assert_eq!(
        open_buffered_file_writer("w", false),
        OpenRequest { path: "w".to_owned(), mode: OpenMode::writing(false), buffered: true }
    );
    assert_eq!(
        open_buffered_file_appender(""),
        OpenRequest { path: String::new(), mode: OpenMode::appending(), buffered: true }
    );
}

#[test]
fn write_adds_nothing_to_the_contents() {
    assert_eq!(
        write_to_file("f", true, "here is some content"),
        WriteRequest {
            open: open_file_for_writing("f", true),
            bytes: b"here is some content".to_vec(),
            flush: true,
        }
    );
    assert_eq!(
        write_to_file("f", false, ""),
        WriteRequest { open: open_file_for_writing("f", false), bytes: Vec::new(), flush: true }
    );
    assert_eq!(write_to_file("f", true, "two\nlines\n").bytes, b"two\nlines\n".to_vec());
}

#[test]
fn append_adds_one_newline() {
    assert_eq!(
        append_to_file("f", "line 1"),
        WriteRequest {
            open: open_file_for_appending("f"),
            bytes: b"line 1\n".to_vec(),
            flush: true,
        }
    );
    assert_eq!(append_to_file("f", "").bytes, vec![0x0a]);
    assert_eq!(append_to_file("f", "ends\n").bytes, b"ends\n\n".to_vec());
    assert_eq!(append_to_file("f", "dos\r").bytes, b"dos\r\n".to_vec());
}

#[test]
fn creation_is_planned_from_what_is_there() {
    assert_eq!(create_file("f", false, true), None);
    assert_eq!(create_file("f", true, true), Some(open_file_for_writing("f", true)));
    assert_eq!(create_file("f", false, false), Some(open_file_for_writing("f", true)));
    assert_eq!(create_file("f", true, false), Some(open_file_for_writing("f", true)));
}

#[test]
fn a_failed_open_leaves_no_handle_and_no_reason() {
    assert_eq!(handle_or_nothing(Ok::<u8, &str>(7)), Some(7));
    assert_eq!(handle_or_nothing(Err::<u8, &str>("denied")), None);
    assert_eq!(handle_or_nothing(Err::<u8, &str>("not found")), None);
}

#[test]
fn an_entry_reports_what_it_holds() {
    let missing = FileEntry::missing();
    assert!(!missing.is_present());
    assert_eq!(missing.contents(), None);

    let empty = FileEntry::holding(Vec::new());
    assert!(empty.is_present());
    assert_eq!(empty.contents(), Some(Vec::new()));

    let full = FileEntry::holding(vec![9, 8, 7]);
    assert!(full.is_present());
    assert_eq!(full.contents(), Some(vec![9, 8, 7]));
}

#[test]
fn opening_for_writing_creates_and_truncates() {
    let mut missing = FileEntry::missing();
    assert_eq!(missing.open(&open_buffered_file_writer("f", false)), Ok(()));
    assert_eq!(missing.contents(), Some(Vec::new()));

    let mut kept = FileEntry::holding(vec![1, 2]);
    assert_eq!(kept.open(&open_buffered_file_writer("f", false)), Ok(()));
    assert_eq!(kept.contents(), Some(vec![1, 2]));

    let mut emptied = FileEntry::holding(vec![1, 2]);
    assert_eq!(emptied.open(&open_buffered_file_writer("f", true)), Ok(()));
    assert_eq!(emptied.contents(), Some(Vec::new()));
}

#[test]
fn opening_for_appending_creates_and_keeps() {
    let mut missing = FileEntry::missing();
    assert_eq!(missing.open(&open_buffered_file_appender("f")), Ok(()));
    assert_eq!(missing.contents(), Some(Vec::new()));

    let mut kept = FileEntry::holding(vec![1, 2]);
    assert_eq!(kept.open(&open_buffered_file_appender("f")), Ok(()));
    assert_eq!(kept.contents(), Some(vec![1, 2]));
}

#[test]
fn invalid_switches_fail_and_touch_nothing() {
    let request = OpenRequest {
        path: "f".to_owned(),
        mode: mode(true, false, false, true, false),
        buffered: false,
    };
    let mut entry = FileEntry::holding(vec![1, 2]);
    assert_eq!(entry.open(&request), Err(Failure::InvalidInput));
    assert_eq!(entry.contents(), Some(vec![1, 2]));

    let mut missing = FileEntry::missing();
    let write = WriteRequest { open: request, bytes: vec![3], flush: true };
    assert_eq!(missing.store(&write), Err(Failure::InvalidInput));
    assert!(!missing.is_present());
}

#[test]
fn a_missing_file_is_not_found_without_create() {
    let request = OpenRequest {
        path: "f".to_owned(),
        mode: mode(false, true, false, false, false),
        buffered: false,
    };
    let mut missing = FileEntry::missing();
    let write = WriteRequest { open: request, bytes: vec![3], flush: true };
    assert_eq!(missing.store(&write), Err(Failure::NotFound));
    assert!(!missing.is_present());

    let mut there = FileEntry::holding(vec![1, 2]);
    assert_eq!(there.store(&write), Ok(()));
    assert_eq!(there.contents(), Some(vec![3, 2]));
}

#[test]
fn a_read_handle_takes_no_bytes() {
    let write = WriteRequest { open: open_file("f"), bytes: vec![3], flush: true };
    let mut entry = FileEntry::holding(vec![1, 2]);
    assert_eq!(entry.store(&write), Err(Failure::NotWritable));
    assert_eq!(entry.contents(), Some(vec![1, 2]));

    let mut missing = FileEntry::missing();
    assert_eq!(missing.store(&write), Err(Failure::NotFound));
}

#[test]
fn append_wins_over_write() {
    let request = OpenRequest {
        path: "f".to_owned(),
        mode: mode(false, true, true, false, true),
        buffered: false,
    };
    let write = WriteRequest { open: request, bytes: vec![3], flush: true };
    let mut entry = FileEntry::holding(vec![1, 2]);
    assert_eq!(entry.store(&write), Ok(()));
    assert_eq!(entry.contents(), Some(vec![1, 2, 3]));
}
