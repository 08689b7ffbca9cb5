use rs_neocities::NeocitiesError;
use rs_neocities::json::RawRecord;
use rs_neocities::site_info::{hash_of_bytes, SiteInfo, SiteItem};

const DATE: &str = "Mon, 01 Jan 2024 00:00:00 +0000";
const DATE_EPOCH: i64 = 1704067200;
const EMPTY_SHA1: &str = "da39a3ee5e6b4b0d3255bfef95601890afd80709";

fn file_record(path: &str, sha1_hash: &str, size: u64) -> RawRecord {
    RawRecord {
        path: Some(String::from(path)),
        is_directory: Some(false),
        updated_at: Some(String::from(DATE)),
        sha1_hash: Some(String::from(sha1_hash)),
        size: Some(size),
    }
}

fn dir_record(path: &str) -> RawRecord {
    RawRecord {
        path: Some(String::from(path)),
        is_directory: Some(true),
        updated_at: Some(String::from(DATE)),
        sha1_hash: None,
        size: None,
    }
}

#[test]
fn parser_builds_file_entry() {
    let item = SiteItem::from_record(&file_record("index.html", EMPTY_SHA1, 0)).unwrap();
    match item {
        SiteItem::File(f) => {
            assert_eq!(f.path, "/index.html");
            assert_eq!(f.modified, DATE_EPOCH);
            assert_eq!(f.sha1_hash, EMPTY_SHA1);
            assert_eq!(f.size, 0);
        },
        SiteItem::Dir(_) => panic!("expected a file entry"),
    }
}

#[test]
fn parser_builds_dir_entry() {
    let item = SiteItem::from_record(&dir_record("blog")).unwrap();
    match item {
        SiteItem::Dir(d) => {
            assert_eq!(d.path, "/blog");
            assert_eq!(d.modified, DATE_EPOCH);
        },
        SiteItem::File(_) => panic!("expected a directory entry"),
    }
}

#[test]
fn parser_missing_path_fails() {
    let mut r = file_record("index.html", EMPTY_SHA1, 0);
    r.path = None;
    assert!(matches!(SiteItem::from_record(&r), Err(NeocitiesError::ListParseError)));
}

#[test]
fn parser_missing_discriminator_fails() {
    let mut r = file_record("index.html", EMPTY_SHA1, 0);
    r.is_directory = None;
    assert!(matches!(SiteItem::from_record(&r), Err(NeocitiesError::ListParseError)));
}

#[test]
fn parser_missing_date_fails() {
    let mut r = file_record("index.html", EMPTY_SHA1, 0);
    r.updated_at = None;
    assert!(matches!(SiteItem::from_record(&r), Err(NeocitiesError::ListParseError)));
    let mut d = dir_record("blog");
    d.updated_at = None;
    assert!(matches!(SiteItem::from_record(&d), Err(NeocitiesError::ListParseError)));
}

#[test]
fn parser_unparseable_date_fails() {
    let mut r = file_record("index.html", EMPTY_SHA1, 0);
    r.updated_at = Some(String::from("not a date"));
    assert!(matches!(SiteItem::from_record(&r), Err(NeocitiesError::ListParseError)));
}

#[test]
fn parser_file_missing_hash_fails() {
    let mut r = file_record("index.html", EMPTY_SHA1, 0);
    r.sha1_hash = None;
    assert!(matches!(SiteItem::from_record(&r), Err(NeocitiesError::ListParseError)));
}

#[test]
fn parser_file_missing_size_fails() {
    let mut r = file_record("index.html", EMPTY_SHA1, 0);
    r.size = None;
    assert!(matches!(SiteItem::from_record(&r), Err(NeocitiesError::ListParseError)));
}

#[test]
fn parser_dir_needs_no_hash_or_size() {
    let r = dir_record("blog");
    assert!(r.sha1_hash.is_none() && r.size.is_none());
    assert!(SiteItem::from_record(&r).is_ok());
}

#[test]
fn load_keeps_count_and_synthesized_paths() {
    let records = vec![
        file_record("index.html", EMPTY_SHA1, 0),
        dir_record("blog"),
        file_record("blog/post.html", "a9993e364706816aba3e25717850c26c9cd0d89d", 3),
    ];
    let info = SiteInfo::from_records(&records).unwrap();
    assert_eq!(info.items.len(), 3);
    for path in ["/index.html", "/blog", "/blog/post.html"] {
        let item = info.get_item(path).unwrap();
        assert_eq!(item.get_path(), path);
    }
    assert!(info.get_item("/absent.html").is_none());
    assert!(info.get_item("index.html").is_none(), "lookup must include the leading separator");
}

#[test]
fn load_fails_fast_on_one_bad_record() {
    let mut bad = file_record("b.html", EMPTY_SHA1, 1);
    bad.size = None;
    let records = vec![file_record("a.html", EMPTY_SHA1, 1), bad];
    assert!(matches!(SiteInfo::from_records(&records), Err(NeocitiesError::ListParseError)));
}

#[test]
fn lookup_variants_filter_by_kind() {
    let records = vec![file_record("a.txt", EMPTY_SHA1, 0), dir_record("d")];
    let info = SiteInfo::from_records(&records).unwrap();
    assert!(info.get_file("/a.txt").is_some());
    assert!(info.get_dir("/a.txt").is_none());
    assert!(info.get_dir("/d").is_some());
    assert!(info.get_file("/d").is_none());
    assert!(info.item_exists_on_site("/a.txt") && info.item_exists_on_site("/d"));
    assert!(info.file_exists_on_site("/a.txt") && !info.file_exists_on_site("/d"));
    assert!(info.dir_exists_on_site("/d") && !info.dir_exists_on_site("/a.txt"));
    assert!(!info.item_exists_on_site("/nowhere"));
    assert!(!info.file_exists_on_site("/nowhere"));
    assert!(!info.dir_exists_on_site("/nowhere"));
}

#[test]
fn bytes_changed_false_only_on_matching_file_hash() {
    let hello_hash = hash_of_bytes(b"hello");
    let records = vec![file_record("a.txt", &hello_hash, 5), dir_record("d")];
    let info = SiteInfo::from_records(&records).unwrap();
    assert!(!info.bytes_changed(b"hello", "/a.txt"));
    assert!(info.bytes_changed(b"other", "/a.txt"));
    assert!(info.bytes_changed(b"hello", "/d"));
    assert!(info.bytes_changed(b"hello", "/absent.txt"));
}

fn one_file_document() -> String {
    String::from(
        "{\"files\":[{\"path\":\"index.html\",\"is_directory\":false,\"updated_at\":\"Mon, 01 Jan 2024 00:00:00 +0000\",\"sha1_hash\":\"da39a3ee5e6b4b0d3255bfef95601890afd80709\",\"size\":0}]}",
    )
}

#[test]
fn scenario_single_file_catalog() {
    let info = SiteInfo::new(Ok(one_file_document())).unwrap();
    assert_eq!(info.items.len(), 1);
    let f = info.get_file("/index.html").unwrap();
    assert_eq!(f.sha1_hash, EMPTY_SHA1);
    assert!(!info.bytes_changed(&[], "/index.html"));
    assert!(info.bytes_changed(&[1], "/index.html"));
    assert!(info.get_file("/missing.html").is_none());
}

#[test]
fn wrong_member_type_fails() {
    let doc = String::from(
        "{\"files\":[{\"path\":5,\"is_directory\":false,\"updated_at\":\"Mon, 01 Jan 2024 00:00:00 +0000\",\"sha1_hash\":\"da39a3ee5e6b4b0d3255bfef95601890afd80709\",\"size\":0}]}",
    );
    assert!(matches!(SiteInfo::new(Ok(doc)), Err(NeocitiesError::ListParseError)));
}

#[test]
fn negative_size_fails() {
    let doc = String::from(
        "{\"files\":[{\"path\":\"a\",\"is_directory\":false,\"updated_at\":\"Mon, 01 Jan 2024 00:00:00 +0000\",\"sha1_hash\":\"da39a3ee5e6b4b0d3255bfef95601890afd80709\",\"size\":-1}]}",
    );
    assert!(matches!(SiteInfo::new(Ok(doc)), Err(NeocitiesError::ListParseError)));
}

#[test]
fn malformed_documents_fail() {
    for doc in ["not json at all", "{}", "{\"files\":3}", "[1,2,3]"] {
        let res = SiteInfo::new(Ok(String::from(doc)));
        assert!(matches!(res, Err(NeocitiesError::ListParseError)), "accepted: {doc}");
    }
}

#[test]
fn transport_error_propagates() {
    let res = SiteInfo::new(Err(NeocitiesError::RequestError(String::from("connection reset"))));
    match res {
        Err(NeocitiesError::RequestError(msg)) => assert_eq!(msg, "connection reset"),
        _ => panic!("expected the transport error back"),
    }
}

#[test]
fn failed_refresh_keeps_catalog_intact() {
    let mut info = SiteInfo::new(Ok(one_file_document())).unwrap();
    let before: Vec<String> = info.items.iter().map(|i| String::from(i.get_path())).collect();

    let res = info.refresh(Err(NeocitiesError::RequestError(String::from("timed out"))));
    assert!(matches!(res, Err(NeocitiesError::RequestError(_))));
    let after: Vec<String> = info.items.iter().map(|i| String::from(i.get_path())).collect();
    assert_eq!(before, after);
    assert!(info.get_file("/index.html").is_some());
    assert!(!info.bytes_changed(&[], "/index.html"));

    let res = info.refresh(Ok(String::from("{ not json")));
    assert!(matches!(res, Err(NeocitiesError::ListParseError)));
    assert!(info.get_file("/index.html").is_some());
    assert!(!info.bytes_changed(&[], "/index.html"));
}

#[test]
fn successful_refresh_replaces_catalog() {
    let mut info = SiteInfo::new(Ok(one_file_document())).unwrap();
    let doc = String::from(
        "{\"files\":[{\"path\":\"blog\",\"is_directory\":true,\"updated_at\":\"Mon, 01 Jan 2024 00:00:00 +0000\"}]}",
    );
    info.refresh(Ok(doc)).unwrap();
    assert_eq!(info.items.len(), 1);
    assert!(info.get_item("/index.html").is_none());
    assert!(info.get_dir("/blog").is_some());
}

#[test]
fn first_matching_entry_wins() {
    let records = vec![dir_record("twice"), file_record("twice", EMPTY_SHA1, 0)];
    let info = SiteInfo::from_records(&records).unwrap();
    let item = info.get_item("/twice").unwrap();
    assert!(matches!(item, SiteItem::Dir(_)));
    assert!(info.get_file("/twice").is_none());
    assert!(info.bytes_changed(&[], "/twice"));
}

#[test]
fn empty_files_array_loads_empty_catalog() {
    let info = SiteInfo::new(Ok(String::from("{\"files\":[]}"))).unwrap();
    assert_eq!(info.items.len(), 0);
    assert!(!info.item_exists_on_site("/index.html"));
    assert!(info.bytes_changed(&[], "/index.html"));
}

#[test]
fn distinct_raw_paths_stay_distinct() {
    let records = vec![
        file_record("a.html", EMPTY_SHA1, 0),
        file_record("b.html", EMPTY_SHA1, 0),
        dir_record("c"),
    ];
    let info = SiteInfo::from_records(&records).unwrap();
    let paths: Vec<&str> = info.items.iter().map(|i| i.get_path()).collect();
    for (i, p) in paths.iter().enumerate() {
        for q in paths.iter().skip(i + 1) {
            assert_ne!(p, q);
        }
    }
}
