use backup::name::basename;
use backup::name::compose_backup_name;
use backup::name::join_path;
use backup::name::parse_backup_name;
use backup::name::RestoreError;
use backup::stamp::check_stamp;
use backup::stamp::Timestamp;

#[test]
fn timestamp_new_accepts_exactly_the_calendar_ranges() {
    assert!(Timestamp::new(2024, 1, 1, 0, 0, 0).is_some());
    assert!(Timestamp::new(9999, 12, 31, 23, 59, 59).is_some());
    assert!(Timestamp::new(0, 1, 1, 0, 0, 0).is_some());
    assert!(Timestamp::new(10000, 1, 1, 0, 0, 0).is_none());
    assert!(Timestamp::new(2024, 0, 1, 0, 0, 0).is_none());
    assert!(Timestamp::new(2024, 13, 1, 0, 0, 0).is_none());
    assert!(Timestamp::new(2024, 1, 0, 0, 0, 0).is_none());
    assert!(Timestamp::new(2024, 1, 32, 0, 0, 0).is_none());
    assert!(Timestamp::new(2024, 1, 1, 24, 0, 0).is_none());
    assert!(Timestamp::new(2024, 1, 1, 0, 60, 0).is_none());
    assert!(Timestamp::new(2024, 1, 1, 0, 0, 60).is_none());
}

#[test]
fn render_pads_every_field() {
    let ts = Timestamp::new(2024, 1, 1, 0, 0, 0).unwrap();
    assert_eq!(ts.render(), "2024-01-01_00-00-00");
    let ts = Timestamp::new(987, 12, 31, 23, 59, 7).unwrap();
    assert_eq!(ts.render(), "0987-12-31_23-59-07");
}

#[test]
fn check_stamp_accepts_only_the_rendered_shape() {
    assert!(check_stamp("2024-01-01_00-00-00"));
    assert!(check_stamp("0000-99-99_99-99-99"));
    assert!(!check_stamp("2024-01-01 00-00-00"));
    assert!(!check_stamp("2024-01-01_00-00-0"));
    assert!(!check_stamp("2024-01-01_00-00-000"));
    assert!(!check_stamp("2024-01-01_00-00-0a"));
    assert!(!check_stamp(""));
}

#[test]
fn basename_takes_the_final_component() {
    assert_eq!(basename("hosts"), Some(String::from("hosts")));
    assert_eq!(basename("/etc/hosts"), Some(String::from("hosts")));
    assert_eq!(basename("a/b/c"), Some(String::from("c")));
    assert_eq!(basename("a/b/"), Some(String::from("b")));
    assert_eq!(basename("a//"), Some(String::from("a")));
}

#[test]
fn basename_rejects_unnameable_paths() {
    assert_eq!(basename(""), None);
    assert_eq!(basename("/"), None);
    assert_eq!(basename("///"), None);
    assert_eq!(basename("."), None);
    assert_eq!(basename(".."), None);
    assert_eq!(basename("a/."), None);
    assert_eq!(basename("a/.."), None);
}

#[test]
fn join_inserts_a_separator_only_where_needed() {
    assert_eq!(join_path("backups", "hosts"), "backups/hosts");
    assert_eq!(join_path("backups/", "hosts"), "backups/hosts");
    assert_eq!(join_path("", "hosts"), "hosts");
    assert_eq!(join_path("./", "hosts"), "./hosts");
}

#[test]
fn compose_builds_the_artifact_name() {
    let ts = Timestamp::new(2024, 1, 1, 0, 0, 0).unwrap();
    let stamp = ts.render();
    assert_eq!(
        compose_backup_name("hosts", &stamp),
        "hosts.2024-01-01_00-00-00.backup"
    );
}

#[test]
fn parse_recovers_the_original_name() {
    assert_eq!(
        parse_backup_name("hosts.2024-01-01_00-00-00.backup"),
        Ok(String::from("hosts"))
    );
    assert_eq!(
        parse_backup_name("archive.tar.gz.1999-12-31_23-59-59.backup"),
        Ok(String::from("archive.tar.gz"))
    );
}

#[test]
fn parse_rejects_a_name_without_the_suffix() {
    assert_eq!(
        parse_backup_name("hosts.2024-01-01_00-00-00"),
        Err(RestoreError::MissingBackupSuffix)
    );
    assert_eq!(parse_backup_name("hosts"), Err(RestoreError::MissingBackupSuffix));
    assert_eq!(parse_backup_name(""), Err(RestoreError::MissingBackupSuffix));
}

#[test]
fn parse_rejects_a_malformed_or_missing_stamp() {
    assert_eq!(
        parse_backup_name("hosts.2024-01-01.backup"),
        Err(RestoreError::MalformedTimestamp)
    );
    assert_eq!(
        parse_backup_name("hosts.2024-01-01_00-00-0x.backup"),
        Err(RestoreError::MalformedTimestamp)
    );
    assert_eq!(
        parse_backup_name(".2024-01-01_00-00-00.backup"),
        Err(RestoreError::MalformedTimestamp)
    );
    assert_eq!(
        parse_backup_name("hosts2024-01-01_00-00-00.backup"),
        Err(RestoreError::MalformedTimestamp)
    );
}

#[test]
fn restore_rejection_messages_are_distinct() {
    let errors = [
        RestoreError::SymlinkUnsupported,
        RestoreError::SourceNotFound,
        RestoreError::UnsupportedArtifactKind,
        RestoreError::InvalidSourceName,
        RestoreError::MissingBackupSuffix,
        RestoreError::MalformedTimestamp,
    ];
    for (i, a) in errors.iter().enumerate() {
        assert!(!a.message().is_empty());
        for b in errors.iter().skip(i + 1) {
            assert_ne!(a.message(), b.message());
        }
    }
    assert_eq!(
        RestoreError::MissingBackupSuffix.message(),
        "Not a backup artifact: the name does not end in .backup"
    );
}

#[test]
fn round_trip_through_compose_and_parse() {
    let ts = Timestamp::new(2026, 10, 9, 15, 4, 59).unwrap();
    let stamp = ts.render();
    for stem in ["hosts", "a", "with.dots", "with space", "x.2000-01-01_00-00-00.backup"] {
        let artifact = compose_backup_name(stem, &stamp);
        assert_eq!(parse_backup_name(&artifact), Ok(String::from(stem)));
    }
}
