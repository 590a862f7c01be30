//! Backup and restore plans: the decisions of the tool, computed as pure
//! functions of the observed entry kinds, the paths, and the clock.
//!
//! The four copy routines of the shape table differ only in which container
//! the target side needs and in whether bytes or a tree are copied, so they
//! collapse here into one plan carrying those two choices.  A caller
//! performs the plan's filesystem actions; until it does, nothing has been
//! touched, which is what makes every rejection a mutation-free one.

use vstd::prelude::*;

use crate::name::RestoreError;
use crate::name::basename;
use crate::name::basename_of;
use crate::name::compose_backup_name;
use crate::name::composed_name;
use crate::name::has_backup_suffix;
use crate::name::has_stamp_segment;
use crate::name::join_path;
use crate::name::join_seq;
use crate::name::parse_backup_name;
use crate::name::restored_stem;
use crate::shape::BackupError;
use crate::shape::BackupShape;
use crate::shape::EntryKind;
use crate::shape::classify;
use crate::shape::shape_of;
use crate::stamp::Timestamp;

verus! {

/// The form the target container must be brought into before the copy:
/// a directory (created with all missing ancestors) or an empty file.
#[derive(Clone, Copy, Debug, PartialEq, Eq, Structural)]
pub enum ContainerKind {
    Directory,
    File,
}

/// How the source's content reaches the artifact path: a plain byte copy
/// for a file, a recursive tree copy for a directory.
#[derive(Clone, Copy, Debug, PartialEq, Eq, Structural)]
pub enum CopyMethod {
    FileBytes,
    DirectoryTree,
}

/// The container the target side of a shape needs.
pub open spec fn container_for(shape: BackupShape) -> ContainerKind {
    match shape {
        BackupShape::FileToDirectory => ContainerKind::Directory,
        BackupShape::DirectoryToDirectory => ContainerKind::Directory,
        BackupShape::FileToFile => ContainerKind::File,
        BackupShape::DirectoryToFile => ContainerKind::File,
    }
}

/// The copy method the source side of a shape needs.
pub open spec fn copy_for(shape: BackupShape) -> CopyMethod {
    match shape {
        BackupShape::FileToDirectory => CopyMethod::FileBytes,
        BackupShape::FileToFile => CopyMethod::FileBytes,
        BackupShape::DirectoryToDirectory => CopyMethod::DirectoryTree,
        BackupShape::DirectoryToFile => CopyMethod::DirectoryTree,
    }
}

/// Everything a backup has decided before it touches the filesystem.
pub struct BackupPlan {
    /// The classified shape of the request.
    pub shape: BackupShape,
    /// What to bring the target path into if it is no longer of its
    /// classified kind by the time the plan runs.
    pub container: ContainerKind,
    /// Whether the artifact is written by a byte copy or a tree copy.
    pub copy: CopyMethod,
    /// The full path of the artifact to write.
    pub backup_path: String,
}

/// The artifact path a backup writes: the source's final path component,
/// stamped and suffixed, joined under the target path.  `None` when the
/// source has no usable final component.
pub open spec fn backup_path_spec(source: Seq<char>, target: Seq<char>, now: Timestamp) -> Option<
    Seq<char>,
> {
    match basename_of(source) {
        Option::None => Option::None,
        Option::Some(stem) => Option::Some(join_seq(target, composed_name(stem, now.stamp_seq()))),
    }
}

/// Decides a backup request: classifies the observed kinds, derives the
/// artifact path from the source name and the given wall-clock time, and
/// returns the actions to perform, or the exact reason the request is
/// rejected.  A pure decision: nothing on disk changes until a caller
/// carries the plan out, so every `Err` is a mutation-free rejection.
pub fn plan_backup(
    source: &str,
    target: &str,
    source_kind: EntryKind,
    target_kind: EntryKind,
    now: Timestamp,
) -> (r: Result<BackupPlan, BackupError>)
    requires
        now.wf(),
    ensures
        r is Ok <==> shape_of(source_kind, target_kind) is Ok && basename_of(source@) is Some,
        shape_of(source_kind, target_kind) matches Err(e) ==> r == Err::<BackupPlan, BackupError>(
            e,
        ),
        shape_of(source_kind, target_kind) is Ok && basename_of(source@) is None ==> r == Err::<
            BackupPlan,
            BackupError,
        >(BackupError::InvalidSourceName),
        r matches Ok(plan) ==> {
            &&& Ok::<BackupShape, BackupError>(plan.shape) == shape_of(source_kind, target_kind)
            &&& plan.container == container_for(plan.shape)
            &&& plan.copy == copy_for(plan.shape)
            &&& Some(plan.backup_path@) == backup_path_spec(source@, target@, now)
        },
{
    let shape = match classify(source_kind, target_kind) {
        Ok(shape) => shape,
        Err(e) => { return Err(e) },
    };
    let stem = match basename(source) {
        Some(stem) => stem,
        None => { return Err(BackupError::InvalidSourceName) },
    };
    let stamp = now.render();
    let artifact = compose_backup_name(stem.as_str(), stamp.as_str());
    let backup_path = join_path(target, artifact.as_str());
    let container = match shape {
        BackupShape::FileToDirectory => ContainerKind::Directory,
        BackupShape::DirectoryToDirectory => ContainerKind::Directory,
        BackupShape::FileToFile => ContainerKind::File,
        BackupShape::DirectoryToFile => ContainerKind::File,
    };
    let copy = match shape {
        BackupShape::FileToDirectory => CopyMethod::FileBytes,
        BackupShape::FileToFile => CopyMethod::FileBytes,
        BackupShape::DirectoryToDirectory => CopyMethod::DirectoryTree,
        BackupShape::DirectoryToFile => CopyMethod::DirectoryTree,
    };
    Ok(BackupPlan { shape, container, copy, backup_path })
}

/// Everything a restore has decided before it touches the filesystem.
pub struct RestorePlan {
    /// The original name recovered from the artifact name.
    pub original_name: String,
    /// The full path the restored copy is written to.
    pub restore_path: String,
    /// Whether the artifact is restored by a byte copy or a tree copy.
    pub copy: CopyMethod,
}

/// The decision table of restore: the artifact must exist and be a regular
/// file or a directory, its path must have a usable final component, and
/// that component must parse under the artifact naming convention; the
/// result is the recovered original name.
pub open spec fn restore_outcome(source: Seq<char>, source_kind: EntryKind) -> Result<
    Seq<char>,
    RestoreError,
> {
    if source_kind is Symlink {
        Err(RestoreError::SymlinkUnsupported)
    } else if source_kind is Missing {
        Err(RestoreError::SourceNotFound)
    } else if !(source_kind is File || source_kind is Directory) {
        Err(RestoreError::UnsupportedArtifactKind)
    } else {
        match basename_of(source) {
            Option::None => Err(RestoreError::InvalidSourceName),
            Option::Some(artifact) => {
                if !has_backup_suffix(artifact) {
                    Err(RestoreError::MissingBackupSuffix)
                } else if !has_stamp_segment(artifact) {
                    Err(RestoreError::MalformedTimestamp)
                } else {
                    Ok(restored_stem(artifact))
                }
            },
        }
    }
}

/// Decides a restore request: recovers the original name from the artifact's
/// final path component and places it under the destination directory, or
/// returns the exact reason the request is rejected.  A pure decision, like
/// `plan_backup`: every `Err` is a mutation-free rejection.
pub fn plan_restore(source: &str, dest: &str, source_kind: EntryKind) -> (r: Result<
    RestorePlan,
    RestoreError,
>)
    ensures
        r is Ok <==> restore_outcome(source@, source_kind) is Ok,
        restore_outcome(source@, source_kind) matches Err(e) ==> r == Err::<RestorePlan,
            RestoreError,
        >(e),
        r matches Ok(plan) ==> {
            &&& Ok::<Seq<char>, RestoreError>(plan.original_name@) == restore_outcome(
                source@,
                source_kind,
            )
            &&& plan.restore_path@ == join_seq(dest@, plan.original_name@)
            &&& plan.copy == (if source_kind is File {
                CopyMethod::FileBytes
            } else {
                CopyMethod::DirectoryTree
            })
        },
{
    if matches!(source_kind, EntryKind::Symlink) {
        return Err(RestoreError::SymlinkUnsupported);
    }
    if matches!(source_kind, EntryKind::Missing) {
        return Err(RestoreError::SourceNotFound);
    }
    if !(matches!(source_kind, EntryKind::File) || matches!(source_kind, EntryKind::Directory)) {
        return Err(RestoreError::UnsupportedArtifactKind);
    }
    let artifact = match basename(source) {
        Some(artifact) => artifact,
        None => { return Err(RestoreError::InvalidSourceName) },
    };
    let original_name = match parse_backup_name(artifact.as_str()) {
        Ok(original_name) => original_name,
        Err(e) => { return Err(e) },
    };
    let restore_path = join_path(dest, original_name.as_str());
    let copy = if matches!(source_kind, EntryKind::File) {
        CopyMethod::FileBytes
    } else {
        CopyMethod::DirectoryTree
    };
    Ok(RestorePlan { original_name, restore_path, copy })
}

/// Backing up and then restoring comes back to the original name: the
/// artifact path that a backup computes, handed to restore as an existing
/// file or directory, passes restore's whole decision table and recovers
/// exactly the source's final path component, whatever the target directory
/// and whenever the clock was read.
pub proof fn lemma_backup_artifact_restores_to_source_name(
    source: Seq<char>,
    target: Seq<char>,
    now: Timestamp,
    artifact_kind: EntryKind,
)
    requires
        basename_of(source) is Some,
        now.wf(),
        artifact_kind is File || artifact_kind is Directory,
    ensures
        backup_path_spec(source, target, now) matches Some(path) && restore_outcome(
            path,
            artifact_kind,
        ) == Ok::<Seq<char>, RestoreError>(basename_of(source)->Some_0),
{
    let stem = basename_of(source)->Some_0;
    let stamp = now.stamp_seq();
    let artifact = composed_name(stem, stamp);
    let path = join_seq(target, artifact);
    crate::name::lemma_basename_properties(source);
    crate::stamp::lemma_stamp_seq_valid(now);
    crate::stamp::lemma_stamp_has_no_slash(stamp);
    assert forall|i: int| 0 <= i < artifact.len() implies artifact[i] != '/' by {
        if i < stem.len() {
            assert(artifact[i] == stem[i]);
        } else if i == stem.len() {
            assert(artifact[i] == '.');
        } else if i < stem.len() + 20 {
            assert(artifact[i] == stamp[i - stem.len() - 1]);
        } else {
            assert(artifact[i] == crate::name::backup_suffix_seq()[i - stem.len() - 20]);
        }
    }
    assert(artifact.len() >= 28);
    crate::name::lemma_basename_of_joined(target, artifact);
    crate::name::lemma_parse_of_composed(stem, stamp);
}

/// Two backups of the same source into the same target within the same
/// wall-clock second compute the same artifact path: the second one
/// overwrites the first artifact instead of adding a second artifact,
/// because the stamp has second resolution and the path depends on nothing
/// else.
pub proof fn lemma_same_second_same_artifact(
    source: Seq<char>,
    target: Seq<char>,
    first: Timestamp,
    second: Timestamp,
)
    requires
        first == second,
    ensures
        backup_path_spec(source, target, first) == backup_path_spec(source, target, second),
{
}

/// Restoring what backup wrote recovers the original name: an artifact
/// named from any stem and any well-formed timestamp parses back to exactly
/// that stem, and the restored copy is placed under the destination with
/// that name.
pub proof fn lemma_restore_recovers_original_name(stem: Seq<char>, now: Timestamp)
    requires
        stem.len() >= 1,
        now.wf(),
    ensures
        has_backup_suffix(composed_name(stem, now.stamp_seq())),
        has_stamp_segment(composed_name(stem, now.stamp_seq())),
        restored_stem(composed_name(stem, now.stamp_seq())) == stem,
{
    crate::stamp::lemma_stamp_seq_valid(now);
    crate::name::lemma_parse_of_composed(stem, now.stamp_seq());
}

} // verus!
