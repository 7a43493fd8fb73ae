use fundoubler::check::Timestamp;
use fundoubler::config::{ConfigError, ConfigFile};
use fundoubler::scan::{
    convert_string_to_system_time, equality_key, fingerprint, needs_content, needs_metadata,
    resolve_filters, FileMeta,
};

const SHA512_HELLO: &str = "9b71d224bd62f3785d96d46ad3ea3d73319bfbc2890caadae2dff72519673ca72323c3d99ba5c11d7c7acc6e14b8c5da0c4663475c2e5c3adef46f73bcdec043";
const SHA512_HELLP: &str = "75ae3605b55e5f2c6e36a7013447e918e08e8089f7cb5499df7ac772916d7ea34cf012c0e256599614d3caa06329eec454ef3f2e4741c4b6dba3fdc47c0a018f";

fn meta(name: &str, size: u64) -> FileMeta {
    FileMeta {
        path: format!("/root/{}", name),
        name: name.to_string(),
        size: Some(size),
        created: Some(Timestamp { secs: 1_000, nanos: 0 }),
        modified: Some(Timestamp { secs: 2_000, nanos: 500 }),
    }
}

#[test]
fn bounds_are_parsed() {
    let cfg = ConfigFile {
        min_size: 3,
        max_size: 10,
        min_createdate: "2018-02-14T00:28:07Z".to_string(),
        max_createdate: "2018-02-14 00:28:07.5".to_string(),
        max_moddate: "2020-01-02T03:04:05Z".to_string(),
        ..ConfigFile::default()
    };
    let f = resolve_filters(&cfg).unwrap();
    assert_eq!(f.min_size, 3);
    assert_eq!(f.max_size, 10);
    assert_eq!(f.min_created, Some(Timestamp { secs: 1518568087, nanos: 0 }));
    assert_eq!(f.max_created, Some(Timestamp { secs: 1518568087, nanos: 500_000_000 }));
    assert_eq!(f.min_modified, None);
    assert_eq!(f.max_modified, Some(Timestamp { secs: 1577934245, nanos: 0 }));
    assert!(f.name_filter.is_none());
}

#[test]
fn unreadable_bounds_are_refused_in_order() {
    let mut cfg = ConfigFile {
        min_createdate: "yesterday".to_string(),
        max_createdate: "1969-01-01T00:00:00Z".to_string(),
        min_moddate: "2018-02-30T00:00:00Z".to_string(),
        max_moddate: "2018".to_string(),
        name_filter: "(".to_string(),
        ..ConfigFile::default()
    };
    assert_eq!(resolve_filters(&cfg).err(), Some(ConfigError::BadMinCreateDate));
    cfg.min_createdate = String::new();
    assert_eq!(resolve_filters(&cfg).err(), Some(ConfigError::BadMaxCreateDate));
    cfg.max_createdate = String::new();
    assert_eq!(resolve_filters(&cfg).err(), Some(ConfigError::BadMinModDate));
    cfg.min_moddate = String::new();
    assert_eq!(resolve_filters(&cfg).err(), Some(ConfigError::BadMaxModDate));
    cfg.max_moddate = String::new();
    assert_eq!(resolve_filters(&cfg).err(), Some(ConfigError::BadNameFilter));
    cfg.name_filter = "^a.*\\.txt$".to_string();
    assert_eq!(resolve_filters(&cfg).unwrap().name_filter, Some("^a.*\\.txt$".to_string()));
}

#[test]
fn size_bounds_filter() {
    let cfg = ConfigFile { min_size: 3, max_size: 10, ..ConfigFile::default() };
    let f = resolve_filters(&cfg).unwrap();
    assert!(!f.accepts(&meta("a", 2)));
    assert!(f.accepts(&meta("a", 3)));
    assert!(f.accepts(&meta("a", 10)));
    assert!(!f.accepts(&meta("a", 11)));
    let mut unknown = meta("a", 0);
    unknown.size = None;
    assert!(f.accepts(&unknown));
    let open = resolve_filters(&ConfigFile::default()).unwrap();
    assert!(open.accepts(&meta("a", 0)));
    assert!(open.accepts(&meta("a", u64::MAX)));
}

#[test]
fn date_bounds_filter() {
    let cfg = ConfigFile {
        min_createdate: "2018-02-14T00:28:07Z".to_string(),
        max_createdate: "2018-02-14T00:28:09Z".to_string(),
        min_moddate: "2018-02-14T00:28:07Z".to_string(),
        max_moddate: "2018-02-14T00:28:09Z".to_string(),
        ..ConfigFile::default()
    };
    let f = resolve_filters(&cfg).unwrap();
    let at = |c: i64, m: i64| FileMeta {
        path: "p".to_string(),
        name: "n".to_string(),
        size: None,
        created: Some(Timestamp { secs: c, nanos: 0 }),
        modified: Some(Timestamp { secs: m, nanos: 0 }),
    };
    assert!(f.accepts(&at(1518568087, 1518568089)));
    assert!(f.accepts(&at(1518568088, 1518568088)));
    assert!(!f.accepts(&at(1518568086, 1518568088)));
    assert!(!f.accepts(&at(1518568090, 1518568088)));
    assert!(!f.accepts(&at(1518568088, 1518568086)));
    assert!(!f.accepts(&at(1518568088, 1518568090)));
    assert!(f.passes_metadata(&at(1518568088, 1518568088)));
    assert!(!f.passes_metadata(&at(1518568088, 1518568090)));
    let mut timeless = at(0, 0);
    timeless.created = None;
    timeless.modified = None;
    assert!(f.accepts(&timeless));
    let late = FileMeta {
        path: "p".to_string(),
        name: "n".to_string(),
        size: None,
        created: Some(Timestamp { secs: 1518568089, nanos: 1 }),
        modified: None,
    };
    assert!(!f.accepts(&late));
}

#[test]
fn name_filter_looks_at_the_base_name() {
    let cfg = ConfigFile { name_filter: "^a.*\\.txt$".to_string(), ..ConfigFile::default() };
    let f = resolve_filters(&cfg).unwrap();
    assert!(f.accepts(&meta("a.txt", 1)));
    assert!(f.accepts(&meta("abc.txt", 1)));
    assert!(!f.accepts(&meta("b.txt", 1)));
    assert!(!f.accepts(&meta("root", 1)));
    assert_eq!(f.name_filter, Some("^a.*\\.txt$".to_string()));
    let sized = ConfigFile { min_size: 5, name_filter: "^a".to_string(), ..ConfigFile::default() };
    let f = resolve_filters(&sized).unwrap();
    assert!(!f.accepts(&meta("a.txt", 1)));
    assert!(f.accepts(&meta("a.txt", 5)));
    assert!(!f.accepts(&meta("b.txt", 5)));
}

#[test]
fn a_pattern_that_does_not_compile_lets_nothing_through() {
    let mut f = resolve_filters(&ConfigFile::default()).unwrap();
    f.name_filter = Some("(".to_string());
    assert!(!f.accepts(&meta("a.txt", 1)));
    f.name_filter = Some("".to_string());
    assert!(f.accepts(&meta("a.txt", 1)));
}

#[test]
fn what_a_run_needs() {
    let cfg = ConfigFile { name: true, ..ConfigFile::default() };
    assert!(!needs_metadata(&cfg));
    assert!(!needs_content(&cfg));
    assert!(needs_metadata(&ConfigFile { size: true, ..ConfigFile::default() }));
    assert!(needs_metadata(&ConfigFile { max_size: 1, ..ConfigFile::default() }));
    assert!(needs_metadata(&ConfigFile { min_moddate: "x".to_string(), ..ConfigFile::default() }));
    assert!(needs_metadata(&ConfigFile { sort_res_mdate_desc: true, ..ConfigFile::default() }));
    assert!(needs_content(&ConfigFile { hash_md5: true, ..ConfigFile::default() }));
    assert!(needs_content(&ConfigFile { hash_sha512: true, ..ConfigFile::default() }));
}

#[test]
fn fingerprint_holds_the_enabled_digests() {
    let cfg = ConfigFile { hash_md5: true, hash_sha512: true, ..ConfigFile::default() };
    let r = fingerprint(&cfg, meta("a.txt", 5), b"hello");
    assert_eq!(r.path, "/root/a.txt");
    assert_eq!(r.attrs.name, Some("a.txt".to_string()));
    assert_eq!(r.attrs.size, None);
    assert_eq!(r.attrs.created, None);
    assert_eq!(r.attrs.modified, None);
    assert_eq!(r.attrs.md5, Some("5d41402abc4b2a76b9719d911017c592".to_string()));
    assert_eq!(r.attrs.sha512, Some(SHA512_HELLO.to_string()));
    let empty = fingerprint(&cfg, meta("e", 0), b"");
    assert_eq!(empty.attrs.md5, Some("d41d8cd98f00b204e9800998ecf8427e".to_string()));
}

#[test]
fn fingerprint_holds_the_metadata_that_is_of_use() {
    let cfg = ConfigFile {
        size: true,
        sort_res_cdate_desc: true,
        date_modified: true,
        ..ConfigFile::default()
    };
    let r = fingerprint(&cfg, meta("a.txt", 5), b"hello");
    assert_eq!(r.attrs.size, Some(5));
    assert_eq!(r.attrs.created, Some(Timestamp { secs: 1_000, nanos: 0 }));
    assert_eq!(r.attrs.modified, Some(Timestamp { secs: 2_000, nanos: 500 }));
    let cfg = ConfigFile { sort_res_size_asc: true, min_size: 1, ..ConfigFile::default() };
    let r = fingerprint(&cfg, meta("a.txt", 5), b"hello");
    assert_eq!(r.attrs.size, Some(5));
    assert_eq!(r.attrs.created, None);
    assert_eq!(r.attrs.modified, None);
    let cfg = ConfigFile { name: true, min_size: 1, ..ConfigFile::default() };
    assert_eq!(fingerprint(&cfg, meta("a.txt", 5), b"hello").attrs.size, None);
}

#[test]
fn fingerprint_leaves_disabled_digests_unset() {
    let cfg = ConfigFile { size: true, ..ConfigFile::default() };
    let r = fingerprint(&cfg, meta("a.txt", 5), b"hello");
    assert_eq!(r.attrs.md5, None);
    assert_eq!(r.attrs.sha512, None);
    let cfg = ConfigFile { hash_md5: true, ..ConfigFile::default() };
    let r = fingerprint(&cfg, meta("a.txt", 5), b"hello");
    assert!(r.attrs.md5.is_some());
    assert_eq!(r.attrs.sha512, None);
}

#[test]
fn equal_content_gives_equal_digests() {
    let cfg = ConfigFile { hash_md5: true, hash_sha512: true, ..ConfigFile::default() };
    let a = fingerprint(&cfg, meta("a.txt", 5), b"hello");
    let b = fingerprint(&cfg, meta("other.bin", 5), b"hello");
    assert_eq!(a.attrs.md5, b.attrs.md5);
    assert_eq!(a.attrs.sha512, b.attrs.sha512);
    let c = fingerprint(&cfg, meta("a.txt", 5), b"hellp");
    assert_ne!(a.attrs.sha512, c.attrs.sha512);
    assert_ne!(a.attrs.md5, c.attrs.md5);
    assert_eq!(c.attrs.sha512, Some(SHA512_HELLP.to_string()));
}

#[test]
fn key_holds_only_enabled_fields() {
    let all = ConfigFile {
        size: true,
        date_created: true,
        date_modified: true,
        hash_md5: true,
        hash_sha512: true,
        ..ConfigFile::default()
    };
    let r = fingerprint(&all, meta("a.txt", 5), b"hello");
    let size_only = ConfigFile { size: true, ..ConfigFile::default() };
    let k = equality_key(&size_only, &r.attrs);
    assert_eq!(k.name, None);
    assert_eq!(k.size, Some(5));
    assert_eq!(k.created, None);
    assert_eq!(k.modified, None);
    assert_eq!(k.md5, None);
    assert_eq!(k.sha512, None);
    let every = ConfigFile {
        name: true,
        size: true,
        date_created: true,
        date_modified: true,
        hash_md5: true,
        hash_sha512: true,
        ..ConfigFile::default()
    };
    assert_eq!(equality_key(&every, &r.attrs), r.attrs);
    let none = equality_key(&ConfigFile::default(), &r.attrs);
    assert_eq!(none, fundoubler::check::CheckOptions::new());
}

#[test]
fn copies_are_equal() {
    let cfg = ConfigFile { hash_md5: true, ..ConfigFile::default() };
    let r = fingerprint(&cfg, meta("a.txt", 5), b"hello");
    assert_eq!(r.duplicate(), r);
    assert_eq!(r.attrs.duplicate(), r.attrs);
    assert_eq!(fundoubler::check::copy_text(&r.attrs.md5), r.attrs.md5);
    assert_eq!(fundoubler::check::copy_text(&None), None);
}

#[test]
fn timestamps_are_read_from_text() {
    assert_eq!(
        convert_string_to_system_time(&"2018-02-14T00:28:07Z".to_string()),
        Some(Timestamp { secs: 1518568087, nanos: 0 })
    );
    assert_eq!(
        convert_string_to_system_time(&"1970-01-01 00:00:00".to_string()),
        Some(Timestamp { secs: 0, nanos: 0 })
    );
    assert_eq!(
        convert_string_to_system_time(&"2018-02-14T00:28:07.000000001Z".to_string()),
        Some(Timestamp { secs: 1518568087, nanos: 1 })
    );
    assert_eq!(convert_string_to_system_time(&String::new()), None);
    assert_eq!(convert_string_to_system_time(&"2018-02-14".to_string()), None);
    assert_eq!(convert_string_to_system_time(&"2018-13-14T00:28:07Z".to_string()), None);
}
