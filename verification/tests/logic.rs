use launcher_core::channel::Latest;
use launcher_core::config::{parse, Configuration, File};
use launcher_core::errors::ErrorKind;
use launcher_core::progress::ProgressState;
use launcher_core::resolve::{find_first_dir, find_matching_file, find_named_dir, DirEntryInfo};
use launcher_core::sync::is_stale;
use launcher_core::text::{path_join, split4, str_contains, strip_surrounding};

fn entry(name: &str, is_dir: bool) -> DirEntryInfo {
    DirEntryInfo {
        name: name.to_string(),
        is_dir,
    }
}

#[test]
fn split4_well_formed() {
    let r = split4("patch.mpq:Data:abc:http//x/patch.mpq").unwrap();
    assert_eq!(r.0, "patch.mpq");
    assert_eq!(r.1, "Data");
    assert_eq!(r.2, "abc");
    assert_eq!(r.3, "http//x/patch.mpq");
}

#[test]
fn split4_wrong_field_count() {
    assert!(split4("a:b:c").is_none());
    assert!(split4("a:b:c:d:e").is_none());
    assert!(split4("").is_none());
    assert!(split4("abcd").is_none());
}

#[test]
fn split4_empty_fields_are_kept() {
    let r = split4(":::").unwrap();
    assert_eq!(r.0, "");
    assert_eq!(r.1, "");
    assert_eq!(r.2, "");
    assert_eq!(r.3, "");
}

#[test]
fn file_parse_round_trip() {
    let f = File::parse("patch.mpq:Data:abc:url").unwrap();
    assert_eq!(f.name, "patch.mpq");
    assert_eq!(f.path, "Data");
    assert_eq!(f.etag, "abc");
    assert_eq!(f.url, "url");
}

#[test]
fn file_parse_malformed_is_rejected() {
    match File::parse("name:path:tag") {
        Err(ErrorKind::MalformedManifestEntry) => {}
        other => panic!("expected malformed-entry error, got {:?}", other),
    }
}

#[test]
fn file_validity() {
    let good = File::parse("a:b:c:d").unwrap();
    assert!(good.is_valid());
    let empty_field = File::parse("a::c:d").unwrap();
    assert!(!empty_field.is_valid());
    let escaping = File::parse("a:../b:c:d").unwrap();
    assert!(!escaping.is_valid());
}

#[test]
fn parse_builds_configuration() {
    let specs = vec![
        "patch.mpq:Data:abc:http//x".to_string(),
        "patch-2.mpq:Data:def:http//y".to_string(),
    ];
    let cfg = parse(
        &specs,
        "root".to_string(),
        "http//game".to_string(),
        "set realmlist example.com".to_string(),
    )
    .unwrap();
    assert_eq!(cfg.files.len(), 2);
    assert_eq!(cfg.files[0].name, "patch.mpq");
    assert_eq!(cfg.files[1].etag, "def");
    assert_eq!(cfg.path, "root");
    assert_eq!(cfg.realmlist, "set realmlist example.com");
}

#[test]
fn parse_rejects_malformed_entry() {
    let specs = vec![
        "patch.mpq:Data:abc:http//x".to_string(),
        "not-enough-fields".to_string(),
    ];
    match parse(
        &specs,
        "root".to_string(),
        "w".to_string(),
        "r".to_string(),
    ) {
        Err(ErrorKind::MalformedManifestEntry) => {}
        other => panic!("expected malformed-entry error, got {:?}", other),
    }
}

#[test]
fn configuration_validity() {
    let cfg = Configuration {
        files: vec![File::parse("a:b:c:d").unwrap()],
        path: "root".to_string(),
        wow: "w".to_string(),
        realmlist: "r".to_string(),
    };
    assert!(cfg.is_valid());
    let bad = Configuration {
        files: vec![File::parse("a::c:d").unwrap()],
        path: "root".to_string(),
        wow: "w".to_string(),
        realmlist: "r".to_string(),
    };
    assert!(!bad.is_valid());
}

#[test]
fn staleness_strips_surrounding_quotes() {
    assert!(!is_stale("\"abc\"", &"abc".to_string()));
    assert!(!is_stale("abc", &"abc".to_string()));
    assert!(is_stale("\"def\"", &"abc".to_string()));
    assert!(is_stale("", &"abc".to_string()));
}

#[test]
fn strip_surrounding_only_trims_ends() {
    assert_eq!(strip_surrounding("\"abc\"", '"'), "abc");
    assert_eq!(strip_surrounding("\"\"abc\"\"", '"'), "abc");
    assert_eq!(strip_surrounding("a\"b", '"'), "a\"b");
    assert_eq!(strip_surrounding("\"\"\"", '"'), "");
    assert_eq!(strip_surrounding("plain", '"'), "plain");
}

#[test]
fn contains_substring() {
    assert!(str_contains("realmlist.wtf", "realmlist"));
    assert!(str_contains("x", ""));
    assert!(!str_contains("realm", "realmlist"));
    assert!(!str_contains("patch.mpq", "realmlist"));
}

#[test]
fn path_join_uses_slash() {
    assert_eq!(path_join("root", "Data"), "root/Data");
    assert_eq!(path_join("", "x"), "/x");
}

#[test]
fn progress_fraction_exact_values() {
    let mut p = ProgressState::begin(1000);
    assert_eq!(p.permille(), 0);
    p.on_chunk(250);
    assert_eq!(p.permille(), 250);
    p.on_chunk(250);
    assert_eq!(p.permille(), 500);
    p.on_chunk(499);
    assert_eq!(p.permille(), 999);
    p.on_chunk(1);
    assert_eq!(p.permille(), 1000);
}

#[test]
fn progress_unknown_total_reports_zero() {
    let mut p = ProgressState::begin(0);
    p.on_chunk(12345);
    assert_eq!(p.permille(), 0);
}

#[test]
fn progress_is_monotone_and_completes_at_exact_end() {
    let mut p = ProgressState::begin(7);
    let mut last = p.permille();
    for _ in 0..7 {
        p.on_chunk(1);
        let now = p.permille();
        assert!(now >= last);
        last = now;
    }
    assert_eq!(p.permille(), 1000);
}

#[test]
fn latest_wins_channel() {
    let mut c: Latest<String> = Latest::empty();
    assert_eq!(c.poll(), None);
    c.post("first".to_string());
    c.post("second".to_string());
    assert_eq!(c.poll(), Some("second".to_string()));
    assert_eq!(c.poll(), None);
}

#[test]
fn resolver_first_match_policy() {
    let entries = vec![
        entry("readme.txt", false),
        entry("Data", true),
        entry("enUS", true),
    ];
    assert_eq!(find_named_dir(&entries, "Data"), Some(1));
    assert_eq!(find_first_dir(&entries), Some(1));
    assert_eq!(find_named_dir(&entries, "Sound"), None);

    let files = vec![
        entry("other.wtf", false),
        entry("realmlist.wtf", false),
        entry("realmlist.bak", false),
    ];
    assert_eq!(find_matching_file(&files, "realmlist"), Some(1));
    assert_eq!(find_matching_file(&files, "missing"), None);
}

#[test]
fn named_dir_requires_directory() {
    let entries = vec![entry("Data", false)];
    assert_eq!(find_named_dir(&entries, "Data"), None);
}

#[test]
fn error_kind_descriptions() {
    assert_eq!(ErrorKind::Transport.describe(), "transport error");
    assert_eq!(ErrorKind::ProtocolStatus.describe(), "protocol error");
    assert_eq!(ErrorKind::FilesystemAccess.describe(), "filesystem error");
    assert_eq!(
        ErrorKind::MalformedManifestEntry.describe(),
        "malformed manifest entry"
    );
}
