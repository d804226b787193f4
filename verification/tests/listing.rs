use ftp_manager::entries::{
    entries_from_records, entry_from_line, local_entry, local_listing, parse_listing, EntryKind,
    FileInfo, RemoteEntry,
};
use ftp_manager::local::{valid_navigation_target, LocalDirectoryCursor};
use ftp_manager::OpError;
use ftp_manager::templates::{FilesTableTemplate, LocalFilesTableTemplate};

#[test]
fn parses_a_posix_file_line() {
    let line = "-rw-r--r-- 1 user group 1234 Nov 5 13:46 example.txt".to_string();
    let e = entry_from_line(&line).expect("a well-formed POSIX line parses");
    assert_eq!(e.name, "example.txt");
    assert_eq!(e.kind, EntryKind::File);
    assert_eq!(e.size, Some(1234));
}

#[test]
fn parses_a_posix_directory_line_without_size() {
    let line = "drwxr-xr-x 2 user group 4096 Nov 5 13:46 pub".to_string();
    let e = entry_from_line(&line).expect("a well-formed POSIX line parses");
    assert_eq!(e.name, "pub");
    assert_eq!(e.kind, EntryKind::Directory);
    // A directory never carries a byte size, whatever the listing reported.
    assert_eq!(e.size, None);
}

#[test]
fn parses_a_dos_line() {
    let line = "04-08-14  03:09PM       403   readme.txt".to_string();
    let e = entry_from_line(&line).expect("a well-formed DOS line parses");
    assert_eq!(e.name, "readme.txt");
    assert_eq!(e.kind, EntryKind::File);
    assert_eq!(e.size, Some(403));
}

#[test]
fn listing_skips_unparseable_lines() {
    let lines = vec![
        "-rw-r--r-- 1 user group 1234 Nov 5 13:46 a.txt".to_string(),
        "type=banana; junk".to_string(),
        "drwxr-xr-x 2 user group 4096 Nov 5 13:46 docs".to_string(),
    ];
    let entries = parse_listing(&lines);
    assert_eq!(entries.len(), 2);
    assert_eq!(entries[0].name, "a.txt");
    assert_eq!(entries[1].name, "docs");
}

#[test]
fn every_listed_kind_is_file_or_directory() {
    let lines = vec![
        "-rw-r--r-- 1 user group 10 Nov 5 13:46 f".to_string(),
        "drwxr-xr-x 2 user group 4096 Nov 5 13:46 d".to_string(),
        "lrwxrwxrwx 1 user group 4 Nov 5 13:46 s -> f".to_string(),
    ];
    for e in parse_listing(&lines) {
        match e.kind {
            EntryKind::File => assert!(true),
            EntryKind::Directory => assert_eq!(e.size, None),
        }
    }
}

#[test]
fn local_records_are_classified() {
    let d = local_entry("docs".to_string(), Some((true, false, 0)));
    assert_eq!(d.kind, EntryKind::Directory);
    assert_eq!(d.size, None);
    let f = local_entry("a.txt".to_string(), Some((false, true, 123)));
    assert_eq!(f.kind, EntryKind::File);
    assert_eq!(f.size, Some(123));
    let unknown = local_entry("odd".to_string(), None);
    assert_eq!(unknown.kind, EntryKind::File);
    assert_eq!(unknown.size, None);
}

#[test]
fn rendering_formats_kind_and_size() {
    let file = RemoteEntry {
        name: "a.bin".to_string(),
        kind: EntryKind::File,
        size: Some(2048),
    };
    let info = FileInfo::from_entry(&file);
    assert_eq!(info.name, "a.bin");
    assert_eq!(info.kind, "file");
    assert_eq!(info.size, "2.0 KB");

    let dir = RemoteEntry {
        name: "docs".to_string(),
        kind: EntryKind::Directory,
        size: None,
    };
    let info = FileInfo::from_entry(&dir);
    assert_eq!(info.kind, "dir");
    assert_eq!(info.size, "0 B");
}

#[test]
fn tables_carry_rendered_rows() {
    let rows = vec![FileInfo {
        name: "a".to_string(),
        kind: "file".to_string(),
        size: "0 B".to_string(),
    }];
    let remote = FilesTableTemplate { files: rows };
    assert_eq!(remote.files.len(), 1);
    let local = LocalFilesTableTemplate { files: remote.files };
    assert_eq!(local.files[0].name, "a");
}

#[test]
fn cursor_moves_only_to_probed_directories() {
    let mut c = LocalDirectoryCursor::from_parts(vec!["home".to_string(), "user".to_string()]);
    assert_eq!(c.path_string(), "/home/user");

    // The probe said the candidate is not a directory: the cursor stays put.
    let cand = c.candidate(&"missing".to_string()).unwrap();
    assert_eq!(cand, vec!["home".to_string(), "user".to_string(), "missing".to_string()]);
    c.apply(cand, false);
    assert_eq!(c.path_string(), "/home/user");

    // The probe confirmed the candidate: the cursor advances.
    let cand = c.candidate(&"docs".to_string()).unwrap();
    c.apply(cand, true);
    assert_eq!(c.path_string(), "/home/user/docs");
}

#[test]
fn parent_navigation_at_root_is_a_no_op() {
    let mut c = LocalDirectoryCursor::new();
    assert_eq!(c.path_string(), "");
    let cand = c.candidate(&"..".to_string()).unwrap();
    assert!(cand.is_empty());
    c.apply(cand, true);
    assert_eq!(c.path_string(), "");
}

#[test]
fn parent_navigation_drops_the_last_component() {
    let c = LocalDirectoryCursor::from_parts(vec!["home".to_string(), "user".to_string()]);
    let cand = c.candidate(&"..".to_string()).unwrap();
    assert_eq!(cand, vec!["home".to_string()]);
}

#[test]
fn breadcrumbs_of_the_rendered_path_name_the_components() {
    let c = LocalDirectoryCursor::from_parts(vec!["srv".to_string(), "ftp".to_string()]);
    let trail = ftp_manager::breadcrumb::breadcrumbs(&c.path_string());
    let names: Vec<&str> = trail.iter().map(|b| b.name.as_str()).collect();
    assert_eq!(names, vec!["srv", "ftp"]);
    assert_eq!(trail[1].path, "/srv/ftp");
}

#[test]
fn invalid_navigation_targets_are_rejected() {
    assert!(valid_navigation_target(&"..".to_string()));
    assert!(valid_navigation_target(&"docs".to_string()));
    assert!(!valid_navigation_target(&"".to_string()));
    assert!(!valid_navigation_target(&"a/b".to_string()));
    assert!(!valid_navigation_target(&"/etc".to_string()));

    let c = LocalDirectoryCursor::from_parts(vec!["home".to_string()]);
    assert_eq!(c.candidate(&"a/b".to_string()), Err(OpError::Io));
    assert_eq!(c.candidate(&"".to_string()), Err(OpError::Io));
    // The cursor itself never moved.
    assert_eq!(c.path_string(), "/home");
}

#[test]
fn records_classify_one_entry_per_accepted_record() {
    let records = vec![
        Some(("a.txt".to_string(), false, 10)),
        None,
        Some(("docs".to_string(), true, 4096)),
        Some(("b.bin".to_string(), false, 7)),
    ];
    let entries = entries_from_records(records);
    assert_eq!(entries.len(), 3);
    assert_eq!(entries[0].name, "a.txt");
    assert_eq!(entries[0].size, Some(10));
    assert_eq!(entries[1].name, "docs");
    assert_eq!(entries[1].kind, EntryKind::Directory);
    assert_eq!(entries[1].size, None);
    assert_eq!(entries[2].name, "b.bin");
}

#[test]
fn local_listing_keeps_every_record_in_order() {
    let records = vec![
        ("docs".to_string(), Some((true, false, 0))),
        ("a.txt".to_string(), Some((false, true, 123))),
        ("odd".to_string(), None),
    ];
    let entries = local_listing(records);
    assert_eq!(entries.len(), 3);
    assert_eq!(entries[0].name, "docs");
    assert_eq!(entries[0].kind, EntryKind::Directory);
    assert_eq!(entries[1].size, Some(123));
    assert_eq!(entries[2].name, "odd");
    assert_eq!(entries[2].size, None);
}
