use fundoubler::check::{CheckOptions, Timestamp};
use fundoubler::config::ConfigFile;
use fundoubler::group::{find_duplicates, Group};
use fundoubler::report::{header, member_line, report_lines};
use fundoubler::scan::{fingerprint, FileMeta};

#[test]
fn header_with_every_field() {
    let key = CheckOptions {
        name: Some("a.txt".to_string()),
        size: Some(1234),
        created: Some(Timestamp { secs: 1431648000, nanos: 0 }),
        modified: Some(Timestamp { secs: 1577934245, nanos: 999 }),
        md5: Some("5d41".to_string()),
        sha512: Some("9b71".to_string()),
    };
    assert_eq!(
        header(&key),
        Some(
            "a.txt - 1234, created: 2015-05-15 00:00:00, modified: 2020-01-02 03:04:05, MD5: 5d41, SHA512: 9b71"
                .to_string()
        )
    );
}

#[test]
fn header_leaves_out_what_is_unset() {
    let mut key = CheckOptions::new();
    assert_eq!(header(&key), Some(String::new()));
    key.size = Some(0);
    assert_eq!(header(&key), Some("0".to_string()));
    key.sha512 = Some("9b71".to_string());
    assert_eq!(header(&key), Some("0, SHA512: 9b71".to_string()));
    key.size = None;
    assert_eq!(header(&key), Some("SHA512: 9b71".to_string()));
    key.md5 = Some("5d41".to_string());
    assert_eq!(header(&key), Some("MD5: 5d41, SHA512: 9b71".to_string()));
    key.name = Some("n".to_string());
    key.md5 = None;
    key.sha512 = None;
    key.size = Some(18446744073709551615);
    assert_eq!(header(&key), Some("n - 18446744073709551615".to_string()));
    key.size = None;
    key.modified = Some(Timestamp { secs: -1, nanos: 0 });
    assert_eq!(header(&key), Some("n, modified: 1969-12-31 23:59:59".to_string()));
}

#[test]
fn header_shows_the_sha512_digest_in_its_own_segment() {
    let mut key = CheckOptions::new();
    key.md5 = Some("md5-digest".to_string());
    key.sha512 = Some("sha512-digest".to_string());
    assert_eq!(header(&key), Some("MD5: md5-digest, SHA512: sha512-digest".to_string()));
    key.md5 = None;
    assert_eq!(header(&key), Some("SHA512: sha512-digest".to_string()));
}

#[test]
fn header_after_an_empty_name_still_separates() {
    let mut key = CheckOptions::new();
    key.name = Some(String::new());
    key.size = Some(7);
    assert_eq!(header(&key), Some(" - 7".to_string()));
}

#[test]
fn header_fails_on_a_time_outside_the_calendar() {
    let mut key = CheckOptions::new();
    key.name = Some("n".to_string());
    key.created = Some(Timestamp { secs: i64::MAX, nanos: 0 });
    assert_eq!(header(&key), None);
    key.created = None;
    key.modified = Some(Timestamp { secs: i64::MIN, nanos: 0 });
    assert_eq!(header(&key), None);
}

#[test]
fn member_lines_are_indented() {
    assert_eq!(member_line("root/a.txt"), "    root/a.txt");
    assert_eq!(member_line(""), "    ");
}

#[test]
fn report_lists_each_group_under_its_header() {
    let cfg = ConfigFile { size: true, sort_res_size_asc: true, sort_res_name_asc: true, ..ConfigFile::default() };
    let record = |name: &str, size: u64| {
        fingerprint(
            &cfg,
            FileMeta {
                path: format!("dir/{}", name),
                name: name.to_string(),
                size: Some(size),
                created: None,
                modified: None,
            },
            b"",
        )
    };
    let files = vec![record("b", 7), record("c", 30), record("a", 7), record("d", 30), record("e", 1)];
    let groups = find_duplicates(&cfg, &files);
    assert_eq!(
        report_lines(&groups),
        Some(vec![
            "7".to_string(),
            "    dir/a".to_string(),
            "    dir/b".to_string(),
            "30".to_string(),
            "    dir/c".to_string(),
            "    dir/d".to_string(),
        ])
    );
    assert_eq!(report_lines(&Vec::new()), Some(Vec::new()));
}

#[test]
fn report_fails_with_a_header() {
    let mut key = CheckOptions::new();
    key.created = Some(Timestamp { secs: i64::MAX, nanos: 0 });
    let bad = Group { key, files: Vec::new() };
    let good = Group { key: CheckOptions::new(), files: Vec::new() };
    assert_eq!(report_lines(&vec![good.clone(), bad.clone()]), None);
    assert_eq!(report_lines(&vec![bad, good.clone()]), None);
    assert_eq!(report_lines(&vec![good]), Some(vec![String::new()]));
}
