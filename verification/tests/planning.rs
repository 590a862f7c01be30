use backup::clock::now_timestamp;
use backup::name::parse_backup_name;
use backup::name::RestoreError;
use backup::plan::plan_backup;
use backup::plan::plan_restore;
use backup::plan::ContainerKind;
use backup::plan::CopyMethod;
use backup::stamp::check_stamp;
use backup::stamp::Timestamp;
use backup::BackupError;
use backup::BackupShape;
use backup::EntryKind;

fn noon() -> Timestamp {
    Timestamp::new(2024, 1, 1, 0, 0, 0).unwrap()
}

#[test]
fn file_into_directory_names_the_artifact_under_the_target() {
    let plan = plan_backup(
        "/etc/hosts",
        "/backups",
        EntryKind::File,
        EntryKind::Directory,
        noon(),
    )
    .unwrap();
    assert_eq!(plan.shape, BackupShape::FileToDirectory);
    assert_eq!(plan.container, ContainerKind::Directory);
    assert_eq!(plan.copy, CopyMethod::FileBytes);
    assert_eq!(plan.backup_path, "/backups/hosts.2024-01-01_00-00-00.backup");
}

#[test]
fn directory_into_directory_plans_a_tree_copy() {
    let plan = plan_backup(
        "/home/user/notes",
        "/backups/",
        EntryKind::Directory,
        EntryKind::Directory,
        noon(),
    )
    .unwrap();
    assert_eq!(plan.shape, BackupShape::DirectoryToDirectory);
    assert_eq!(plan.container, ContainerKind::Directory);
    assert_eq!(plan.copy, CopyMethod::DirectoryTree);
    assert_eq!(plan.backup_path, "/backups/notes.2024-01-01_00-00-00.backup");
}

#[test]
fn file_targets_expect_a_file_container() {
    let plan = plan_backup("hosts", "vault", EntryKind::File, EntryKind::File, noon()).unwrap();
    assert_eq!(plan.shape, BackupShape::FileToFile);
    assert_eq!(plan.container, ContainerKind::File);
    assert_eq!(plan.copy, CopyMethod::FileBytes);
    let plan =
        plan_backup("notes", "vault", EntryKind::Directory, EntryKind::File, noon()).unwrap();
    assert_eq!(plan.shape, BackupShape::DirectoryToFile);
    assert_eq!(plan.container, ContainerKind::File);
    assert_eq!(plan.copy, CopyMethod::DirectoryTree);
}

#[test]
fn symlinks_are_rejected_without_a_plan() {
    assert_eq!(
        plan_backup("link", "dir", EntryKind::Symlink, EntryKind::Directory, noon()).err(),
        Some(BackupError::SymlinkUnsupported)
    );
    assert_eq!(
        plan_backup("hosts", "link", EntryKind::File, EntryKind::Symlink, noon()).err(),
        Some(BackupError::SymlinkUnsupported)
    );
}

#[test]
fn missing_entries_are_rejected_without_a_plan() {
    assert_eq!(
        plan_backup("gone", "dir", EntryKind::Missing, EntryKind::Directory, noon()).err(),
        Some(BackupError::SourceNotFound)
    );
    assert_eq!(
        plan_backup("hosts", "gone", EntryKind::File, EntryKind::Missing, noon()).err(),
        Some(BackupError::TargetNotFound)
    );
}

#[test]
fn unnameable_sources_are_rejected() {
    assert_eq!(
        plan_backup("/", "dir", EntryKind::Directory, EntryKind::Directory, noon()).err(),
        Some(BackupError::InvalidSourceName)
    );
    assert_eq!(
        plan_backup("a/..", "dir", EntryKind::Directory, EntryKind::Directory, noon()).err(),
        Some(BackupError::InvalidSourceName)
    );
}

#[test]
fn same_second_backups_collide_on_one_artifact_path() {
    let first = plan_backup("hosts", "dir", EntryKind::File, EntryKind::Directory, noon())
        .unwrap();
    let second = plan_backup("hosts", "dir", EntryKind::File, EntryKind::Directory, noon())
        .unwrap();
    assert_eq!(first.backup_path, second.backup_path);
}

#[test]
fn restore_recovers_the_original_file_name() {
    let plan = plan_restore(
        "/backups/hosts.2024-01-01_00-00-00.backup",
        "./",
        EntryKind::File,
    )
    .unwrap();
    assert_eq!(plan.original_name, "hosts");
    assert_eq!(plan.restore_path, "./hosts");
    assert_eq!(plan.copy, CopyMethod::FileBytes);
}

#[test]
fn restore_of_a_directory_artifact_plans_a_tree_copy() {
    let plan = plan_restore(
        "backups/notes.2023-06-15_10-30-00.backup",
        "out",
        EntryKind::Directory,
    )
    .unwrap();
    assert_eq!(plan.original_name, "notes");
    assert_eq!(plan.restore_path, "out/notes");
    assert_eq!(plan.copy, CopyMethod::DirectoryTree);
}

#[test]
fn restore_rejections_are_typed() {
    assert_eq!(
        plan_restore("link", "./", EntryKind::Symlink).err(),
        Some(RestoreError::SymlinkUnsupported)
    );
    assert_eq!(
        plan_restore("gone", "./", EntryKind::Missing).err(),
        Some(RestoreError::SourceNotFound)
    );
    assert_eq!(
        plan_restore("dev", "./", EntryKind::Other).err(),
        Some(RestoreError::UnsupportedArtifactKind)
    );
    assert_eq!(
        plan_restore("/", "./", EntryKind::Directory).err(),
        Some(RestoreError::InvalidSourceName)
    );
    assert_eq!(
        plan_restore("hosts.txt", "./", EntryKind::File).err(),
        Some(RestoreError::MissingBackupSuffix)
    );
    assert_eq!(
        plan_restore("hosts.2024.backup", "./", EntryKind::File).err(),
        Some(RestoreError::MalformedTimestamp)
    );
}

#[test]
fn clock_produces_a_well_formed_stamp() {
    let ts = now_timestamp().expect("the clock year fits in four digits");
    let stamp = ts.render();
    assert!(check_stamp(&stamp));
    let artifact = format!("hosts.{}.backup", stamp);
    assert_eq!(parse_backup_name(&artifact), Ok(String::from("hosts")));
}
