//! Classification of a backup request by the filesystem kinds of its
//! source and target.

use vstd::prelude::*;

verus! {

/// What a path resolves to on the filesystem at the moment it is inspected.
///
/// `Symlink` is the kind of the path itself (no following); for the other
/// kinds symlinks would already have been rejected, so following or not makes
/// no difference.  `Other` covers entries that exist but are neither regular
/// files nor directories (device files and the like).
#[derive(Clone, Copy, Debug, PartialEq, Eq, Structural)]
pub enum EntryKind {
    Missing,
    File,
    Directory,
    Symlink,
    Other,
}

/// The four supported combinations of source and target kinds.
#[derive(Clone, Copy, Debug, PartialEq, Eq, Structural)]
pub enum BackupShape {
    FileToDirectory,
    FileToFile,
    DirectoryToDirectory,
    DirectoryToFile,
}

/// Why a backup request was rejected before any copying could start.
#[derive(Clone, Copy, Debug, PartialEq, Eq, Structural)]
pub enum BackupError {
    /// Source or target is a symlink; symlink semantics are deliberately
    /// unsupported.
    SymlinkUnsupported,
    /// The source path does not resolve to any filesystem entry.
    SourceNotFound,
    /// The target path does not resolve to any filesystem entry.
    TargetNotFound,
    /// Both paths resolve, but to kinds outside the supported
    /// (file, directory) x (file, directory) table.
    Unclassifiable,
    /// The source path has no usable final component to name the artifact
    /// after (for example the filesystem root).
    InvalidSourceName,
}

impl BackupError {
    /// The message reported for this rejection.
    pub fn message(&self) -> (r: String)
        ensures
            self is SymlinkUnsupported ==> r@ == "Symlinks are not supported!"@,
            self is SourceNotFound ==> r@ == "Source file or directory does not exist"@,
            self is TargetNotFound ==> r@ == "Target file or directory does not exist"@,
            self is Unclassifiable ==> r@ == "Unknown error"@,
            self is InvalidSourceName ==> r@ == "Source path has no usable file name"@,
    {
        match self {
            BackupError::SymlinkUnsupported => "Symlinks are not supported!".to_owned(),
            BackupError::SourceNotFound => "Source file or directory does not exist".to_owned(),
            BackupError::TargetNotFound => "Target file or directory does not exist".to_owned(),
            BackupError::Unclassifiable => "Unknown error".to_owned(),
            BackupError::InvalidSourceName => "Source path has no usable file name".to_owned(),
        }
    }
}

/// The decision table of the classifier: symlinks are rejected first, then a
/// missing source, then a missing target; what remains is the Cartesian
/// product of (file, directory) for source and target, and every other
/// combination of kinds is unclassifiable.
pub open spec fn shape_of(source: EntryKind, target: EntryKind) -> Result<
    BackupShape,
    BackupError,
> {
    if source is Symlink || target is Symlink {
        Err(BackupError::SymlinkUnsupported)
    } else if source is Missing {
        Err(BackupError::SourceNotFound)
    } else if target is Missing {
        Err(BackupError::TargetNotFound)
    } else {
        match (source, target) {
            (EntryKind::File, EntryKind::Directory) => Ok(BackupShape::FileToDirectory),
            (EntryKind::File, EntryKind::File) => Ok(BackupShape::FileToFile),
            (EntryKind::Directory, EntryKind::Directory) => Ok(BackupShape::DirectoryToDirectory),
            (EntryKind::Directory, EntryKind::File) => Ok(BackupShape::DirectoryToFile),
            _ => Err(BackupError::Unclassifiable),
        }
    }
}

/// Determines which backup shape applies to the observed source and target
/// kinds, or why none does.  A pure decision: it touches nothing.
pub fn classify(source: EntryKind, target: EntryKind) -> (r: Result<BackupShape, BackupError>)
    ensures
        r == shape_of(source, target),
{
    if matches!(source, EntryKind::Symlink) || matches!(target, EntryKind::Symlink) {
        Err(BackupError::SymlinkUnsupported)
    } else if matches!(source, EntryKind::Missing) {
        Err(BackupError::SourceNotFound)
    } else if matches!(target, EntryKind::Missing) {
        Err(BackupError::TargetNotFound)
    } else {
        match (source, target) {
            (EntryKind::File, EntryKind::Directory) => Ok(BackupShape::FileToDirectory),
            (EntryKind::File, EntryKind::File) => Ok(BackupShape::FileToFile),
            (EntryKind::Directory, EntryKind::Directory) => Ok(BackupShape::DirectoryToDirectory),
            (EntryKind::Directory, EntryKind::File) => Ok(BackupShape::DirectoryToFile),
            _ => Err(BackupError::Unclassifiable),
        }
    }
}

} // verus!
