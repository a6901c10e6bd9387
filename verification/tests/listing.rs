use sftp_core::listing::{collect_entries, FileInfo, RawEntry};

fn raw(name: &str, is_dir: bool, size: Option<u64>) -> RawEntry {
    RawEntry { name: Some(name.to_string()), is_dir, size }
}

fn names(infos: &[FileInfo]) -> Vec<String> {
    infos.iter().map(|f| f.name.clone()).collect()
}

#[test]
fn filters_pseudo_entries() {
    let entries = vec![
        raw(".", true, None),
        raw("..", true, None),
        raw("report.txt", false, Some(1024)),
        raw("docs", true, None),
    ];
    let listing = collect_entries(entries);
    assert_eq!(names(&listing), vec!["report.txt".to_string(), "docs".to_string()]);
}

#[test]
fn no_entry_is_dot_or_dotdot() {
    let entries = vec![
        raw("..", true, None),
        raw("a", false, Some(1)),
        raw(".", true, None),
        raw("b", true, None),
        raw(".", true, None),
    ];
    let listing = collect_entries(entries);
    for info in &listing {
        assert_ne!(info.name, ".");
        assert_ne!(info.name, "..");
    }
    assert_eq!(listing.len(), 2);
}

#[test]
fn undecodable_name_reported_empty() {
    let entries = vec![RawEntry { name: None, is_dir: false, size: Some(7) }];
    let listing = collect_entries(entries);
    assert_eq!(listing.len(), 1);
    assert_eq!(listing[0].name, "");
    assert!(!listing[0].is_dir);
    assert_eq!(listing[0].size, Some(7));
}

#[test]
fn keeps_server_order_and_fields() {
    let entries = vec![
        raw("z.bin", false, Some(42)),
        raw("a_dir", true, None),
        raw("m.txt", false, Some(0)),
    ];
    let listing = collect_entries(entries);
    assert_eq!(listing.len(), 3);
    assert_eq!(listing[0].name, "z.bin");
    assert!(!listing[0].is_dir);
    assert_eq!(listing[0].size, Some(42));
    assert_eq!(listing[1].name, "a_dir");
    assert!(listing[1].is_dir);
    assert_eq!(listing[1].size, None);
    assert_eq!(listing[2].name, "m.txt");
    assert_eq!(listing[2].size, Some(0));
}

#[test]
fn empty_directory_lists_empty() {
    let listing = collect_entries(Vec::new());
    assert!(listing.is_empty());
}

#[test]
fn dot_prefixed_names_are_kept() {
    let entries = vec![raw(".hidden", false, Some(3)), raw("...", false, None)];
    let listing = collect_entries(entries);
    assert_eq!(names(&listing), vec![".hidden".to_string(), "...".to_string()]);
}
