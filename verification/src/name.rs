//! The artifact naming convention `<name>.<timestamp>.backup`, and the
//! path handling around it: final path components and path joining.
//!
//! The convention is the on-disk index of this tool: there is no manifest
//! beside an artifact, so restoring must recover the original name from the
//! artifact's own name.

use vstd::prelude::*;

use crate::stamp::is_stamp_seq;

verus! {

/// Why restoring an artifact was rejected before any copying could start.
#[derive(Clone, Copy, Debug, PartialEq, Eq, Structural)]
pub enum RestoreError {
    /// The artifact path is a symlink; symlink semantics are deliberately
    /// unsupported.
    SymlinkUnsupported,
    /// The artifact path does not resolve to any filesystem entry.
    SourceNotFound,
    /// The artifact exists but is neither a regular file nor a directory.
    UnsupportedArtifactKind,
    /// The artifact path has no usable final component.
    InvalidSourceName,
    /// The artifact name does not end in `.backup`.
    MissingBackupSuffix,
    /// The artifact name ends in `.backup` but what precedes the suffix does
    /// not end in `.<YYYY-MM-DD_HH-MM-SS>`, or nothing precedes the stamp.
    MalformedTimestamp,
}

impl RestoreError {
    /// The message reported for this rejection.
    pub fn message(&self) -> (r: String)
        ensures
            self is SymlinkUnsupported ==> r@ == "Symlinks are not supported!"@,
            self is SourceNotFound ==> r@ == "Source file or directory does not exist"@,
            self is UnsupportedArtifactKind ==> r@
                == "Source is neither a file nor a directory"@,
            self is InvalidSourceName ==> r@ == "Source path has no usable file name"@,
            self is MissingBackupSuffix ==> r@
                == "Not a backup artifact: the name does not end in .backup"@,
            self is MalformedTimestamp ==> r@
                == "Not a backup artifact: no timestamp before the .backup suffix"@,
    {
        match self {
            RestoreError::SymlinkUnsupported => "Symlinks are not supported!".to_owned(),
            RestoreError::SourceNotFound => "Source file or directory does not exist".to_owned(),
            RestoreError::UnsupportedArtifactKind => "Source is neither a file nor a directory".to_owned(),
            RestoreError::InvalidSourceName => "Source path has no usable file name".to_owned(),
            RestoreError::MissingBackupSuffix => "Not a backup artifact: the name does not end in .backup".to_owned(),
            RestoreError::MalformedTimestamp => "Not a backup artifact: no timestamp before the .backup suffix".to_owned(),
        }
    }
}

/// The source path's final component with trailing separators removed:
/// what remains of `s` once every trailing `/` is dropped.
pub open spec fn trim_trailing_slashes(s: Seq<char>) -> Seq<char>
    decreases s.len(),
{
    if s.len() > 0 && s[s.len() - 1] == '/' {
        trim_trailing_slashes(s.drop_last())
    } else {
        s
    }
}

/// The suffix of `s` after its last `/`; the whole of `s` when it has none.
pub open spec fn after_last_slash(s: Seq<char>) -> Seq<char>
    decreases s.len(),
{
    if s.len() == 0 {
        s
    } else if s[s.len() - 1] == '/' {
        Seq::empty()
    } else {
        after_last_slash(s.drop_last()).push(s[s.len() - 1])
    }
}

/// The final path component usable as a file name: trailing separators are
/// ignored, and a path that runs out entirely (the root, or only
/// separators) or whose last component is `.` or `..` has no name.
pub open spec fn basename_of(s: Seq<char>) -> Option<Seq<char>> {
    let t = trim_trailing_slashes(s);
    if t.len() == 0 {
        None
    } else {
        let b = after_last_slash(t);
        if b == seq!['.'] || b == seq!['.', '.'] {
            None
        } else {
            Some(b)
        }
    }
}

/// Extracts the final path component of `path`, the name a backup artifact
/// is derived from.
pub fn basename(path: &str) -> (r: Option<String>)
    ensures
        r matches Some(b) ==> basename_of(path@) == Some(b@),
        r is Some <==> basename_of(path@) is Some,
{
    let ghost s = path@;
    let n = path.unicode_len();
    let mut m = n;
    proof {
        assert(s.subrange(0, n as int) =~= s);
    }
    loop
        invariant
            m <= n,
            n == s.len(),
            s == path@,
            trim_trailing_slashes(s) == trim_trailing_slashes(s.subrange(0, m as int)),
        ensures
            m <= n,
            trim_trailing_slashes(s) == trim_trailing_slashes(s.subrange(0, m as int)),
            m == 0 || s[m - 1] != '/',
        decreases m,
    {
        if m == 0 {
            break ;
        }
        let c = path.get_char(m - 1);
        if c != '/' {
            break ;
        }
        proof {
            assert(s.subrange(0, m as int).drop_last() =~= s.subrange(0, m - 1 as int));
        }
        m = m - 1;
    }
    if m == 0 {
        proof {
            assert(s.subrange(0, 0) =~= Seq::<char>::empty());
        }
        return None;
    }
    let ghost t = s.subrange(0, m as int);
    proof {
        assert(t[t.len() - 1] == s[m - 1]);
        assert(trim_trailing_slashes(t) == t);
    }
    let mut k = m;
    proof {
        assert(after_last_slash(t) == after_last_slash(s.subrange(0, k as int)) + s.subrange(
            k as int,
            m as int,
        )) by {
            assert(s.subrange(m as int, m as int) =~= Seq::<char>::empty());
            assert(after_last_slash(t) + Seq::<char>::empty() =~= after_last_slash(t));
        }
    }
    loop
        invariant
            k <= m,
            m <= n,
            n == s.len(),
            s == path@,
            t == s.subrange(0, m as int),
            after_last_slash(t) == after_last_slash(s.subrange(0, k as int)) + s.subrange(
                k as int,
                m as int,
            ),
        ensures
            k <= m,
            after_last_slash(t) == s.subrange(k as int, m as int),
        decreases k,
    {
        if k == 0 {
            proof {
                assert(s.subrange(0, 0) =~= Seq::<char>::empty());
                assert(after_last_slash(s.subrange(0, 0)) + s.subrange(0, m as int) =~= s.subrange(
                    0,
                    m as int,
                ));
            }
            break ;
        }
        let c = path.get_char(k - 1);
        if c == '/' {
            proof {
                assert(after_last_slash(s.subrange(0, k as int)) =~= Seq::<char>::empty());
                assert(after_last_slash(s.subrange(0, k as int)) + s.subrange(k as int, m as int)
                    =~= s.subrange(k as int, m as int));
            }
            break ;
        }
        proof {
            let pre = s.subrange(0, k as int);
            assert(pre.drop_last() =~= s.subrange(0, k - 1 as int));
            assert(after_last_slash(pre) == after_last_slash(s.subrange(0, k - 1 as int)).push(
                s[k - 1],
            ));
            assert(after_last_slash(s.subrange(0, k - 1 as int)).push(s[k - 1]) + s.subrange(
                k as int,
                m as int,
            ) =~= after_last_slash(s.subrange(0, k - 1 as int)) + s.subrange(
                k - 1 as int,
                m as int,
            ));
        }
        k = k - 1;
    }
    let ghost b = s.subrange(k as int, m as int);
    if m - k == 1 && path.get_char(k) == '.' {
        proof {
            assert(b =~= seq!['.']);
        }
        return None;
    }
    if m - k == 2 && path.get_char(k) == '.' && path.get_char(k + 1) == '.' {
        proof {
            assert(b =~= seq!['.', '.']);
        }
        return None;
    }
    proof {
        if b == seq!['.'] {
            assert(b.len() == 1 && b[0] == '.');
        }
        if b == seq!['.', '.'] {
            assert(b.len() == 2 && b[0] == '.' && b[1] == '.');
        }
    }
    let stem = path.substring_char(k, m);
    Some(stem.to_owned())
}

/// `name` placed under the directory path `dir`: a `/` is inserted unless
/// `dir` is empty or already ends with one.
pub open spec fn join_seq(dir: Seq<char>, name: Seq<char>) -> Seq<char> {
    if dir.len() == 0 {
        name
    } else if dir[dir.len() - 1] == '/' {
        dir + name
    } else {
        dir + seq!['/'] + name
    }
}

/// Joins a file name onto a directory path.
pub fn join_path(dir: &str, name: &str) -> (r: String)
    ensures
        r@ == join_seq(dir@, name@),
{
    let n = dir.unicode_len();
    if n == 0 {
        return name.to_owned();
    }
    let mut out = dir.to_owned();
    if dir.get_char(n - 1) != '/' {
        out.append("/");
        proof {
            reveal_strlit("/");
            assert(out@ =~= dir@ + seq!['/']);
        }
    }
    out.append(name);
    proof {
        assert(out@ =~= join_seq(dir@, name@));
    }
    out
}

/// The characters of the artifact suffix `.backup`.
pub open spec fn backup_suffix_seq() -> Seq<char> {
    seq!['.', 'b', 'a', 'c', 'k', 'u', 'p']
}

/// An artifact name as backup writes it: the original name, a dot, the
/// rendered timestamp, and the `.backup` suffix.
pub open spec fn composed_name(stem: Seq<char>, stamp: Seq<char>) -> Seq<char> {
    stem + seq!['.'] + stamp + backup_suffix_seq()
}

/// Whether `s` ends in the literal suffix `.backup`.
pub open spec fn has_backup_suffix(s: Seq<char>) -> bool {
    &&& s.len() >= 7
    &&& s[s.len() - 7] == '.'
    &&& s[s.len() - 6] == 'b'
    &&& s[s.len() - 5] == 'a'
    &&& s[s.len() - 4] == 'c'
    &&& s[s.len() - 3] == 'k'
    &&& s[s.len() - 2] == 'u'
    &&& s[s.len() - 1] == 'p'
}

/// Whether the 20 characters before the `.backup` suffix are a dot followed
/// by a well-shaped timestamp, with at least one character before them for
/// the original name.
pub open spec fn has_stamp_segment(s: Seq<char>) -> bool {
    &&& s.len() >= 28
    &&& s[s.len() - 27] == '.'
    &&& is_stamp_seq(s.subrange(s.len() - 26, s.len() - 7))
}

/// The original name recovered from a well-formed artifact name: everything
/// before the `.<timestamp>.backup` tail.
pub open spec fn restored_stem(s: Seq<char>) -> Seq<char> {
    s.subrange(0, s.len() - 27)
}

/// Composes the artifact name `<stem>.<stamp>.backup`.
pub fn compose_backup_name(stem: &str, stamp: &str) -> (r: String)
    ensures
        r@ == composed_name(stem@, stamp@),
{
    let mut out = stem.to_owned();
    out.append(".");
    out.append(stamp);
    out.append(".backup");
    proof {
        reveal_strlit(".");
        reveal_strlit(".backup");
        assert(out@ =~= composed_name(stem@, stamp@));
    }
    out
}

/// Recovers the original name from an artifact name, rejecting a name
/// without the `.backup` suffix, and one whose suffix is not preceded by
/// `.<YYYY-MM-DD_HH-MM-SS>` with at least one character before it.
pub fn parse_backup_name(name: &str) -> (r: Result<String, RestoreError>)
    ensures
        r is Ok <==> has_backup_suffix(name@) && has_stamp_segment(name@),
        r matches Ok(stem) ==> stem@ == restored_stem(name@),
        !has_backup_suffix(name@) ==> r == Err::<String, RestoreError>(
            RestoreError::MissingBackupSuffix,
        ),
        has_backup_suffix(name@) && !has_stamp_segment(name@) ==> r == Err::<String, RestoreError>(
            RestoreError::MalformedTimestamp,
        ),
{
    let n = name.unicode_len();
    if n < 7 {
        return Err(RestoreError::MissingBackupSuffix);
    }
    let suffix_ok = name.get_char(n - 7) == '.' && name.get_char(n - 6) == 'b' && name.get_char(
        n - 5,
    ) == 'a' && name.get_char(n - 4) == 'c' && name.get_char(n - 3) == 'k' && name.get_char(n - 2)
        == 'u' && name.get_char(n - 1) == 'p';
    if !suffix_ok {
        return Err(RestoreError::MissingBackupSuffix);
    }
    if n < 28 {
        return Err(RestoreError::MalformedTimestamp);
    }
    if name.get_char(n - 27) != '.' {
        return Err(RestoreError::MalformedTimestamp);
    }
    let stamp = name.substring_char(n - 26, n - 7);
    if !crate::stamp::check_stamp(stamp) {
        return Err(RestoreError::MalformedTimestamp);
    }
    let stem = name.substring_char(0, n - 27);
    Ok(stem.to_owned())
}

/// Trimming trailing separators leaves nothing, or a sequence that no
/// longer ends in one.
pub proof fn lemma_trim_has_no_trailing_slash(s: Seq<char>)
    ensures
        trim_trailing_slashes(s).len() > 0 ==> trim_trailing_slashes(s)[trim_trailing_slashes(
            s,
        ).len() - 1] != '/',
    decreases s.len(),
{
    if s.len() > 0 && s[s.len() - 1] == '/' {
        lemma_trim_has_no_trailing_slash(s.drop_last());
    }
}

/// A basename, where one exists, is never empty and never contains a
/// separator: it is usable as a single file name.
pub proof fn lemma_basename_properties(s: Seq<char>)
    requires
        basename_of(s) is Some,
    ensures
        basename_of(s)->Some_0.len() >= 1,
        forall|i: int|
            0 <= i < basename_of(s)->Some_0.len() ==> basename_of(s)->Some_0[i] != '/',
{
    let t = trim_trailing_slashes(s);
    lemma_trim_has_no_trailing_slash(s);
    lemma_after_last_slash_has_no_slash(t);
}

/// What stands after the last separator contains no separator itself.
pub proof fn lemma_after_last_slash_has_no_slash(s: Seq<char>)
    ensures
        forall|i: int| 0 <= i < after_last_slash(s).len() ==> after_last_slash(s)[i] != '/',
    decreases s.len(),
{
    if s.len() == 0 {
    } else if s[s.len() - 1] == '/' {
    } else {
        lemma_after_last_slash_has_no_slash(s.drop_last());
        let shorter = after_last_slash(s.drop_last());
        assert(after_last_slash(s) == shorter.push(s[s.len() - 1]));
        assert forall|i: int| 0 <= i < after_last_slash(s).len() implies after_last_slash(s)[i]
            != '/' by {
            if i < shorter.len() {
                assert(after_last_slash(s)[i] == shorter[i]);
            } else {
                assert(after_last_slash(s)[i] == s[s.len() - 1]);
            }
        }
    }
}

/// Appending separator-free characters extends what stands after the last
/// separator by exactly those characters.
pub proof fn lemma_after_last_slash_of_concat(x: Seq<char>, tail: Seq<char>)
    requires
        forall|i: int| 0 <= i < tail.len() ==> tail[i] != '/',
    ensures
        after_last_slash(x + tail) == after_last_slash(x) + tail,
    decreases tail.len(),
{
    if tail.len() == 0 {
        assert(x + tail =~= x);
        assert(after_last_slash(x) + tail =~= after_last_slash(x));
    } else {
        let shorter = tail.drop_last();
        lemma_after_last_slash_of_concat(x, shorter);
        assert((x + tail).drop_last() =~= x + shorter);
        assert((x + tail)[(x + tail).len() - 1] == tail[tail.len() - 1]);
        assert((after_last_slash(x) + shorter).push(tail[tail.len() - 1]) =~= after_last_slash(x)
            + tail);
    }
}

/// A separator-free, nameable `name` joined under any directory path stays
/// the final component of the joined path: the joined path's basename is
/// `name` itself.
pub proof fn lemma_basename_of_joined(dir: Seq<char>, name: Seq<char>)
    requires
        name.len() > 0,
        name != seq!['.'],
        name != seq!['.', '.'],
        forall|i: int| 0 <= i < name.len() ==> name[i] != '/',
    ensures
        basename_of(join_seq(dir, name)) == Some(name),
{
    let j = join_seq(dir, name);
    if dir.len() == 0 {
        assert(j == name);
        assert(trim_trailing_slashes(j) == j);
        assert(Seq::<char>::empty() + name =~= name);
        lemma_after_last_slash_of_concat(Seq::empty(), name);
        assert(after_last_slash(Seq::<char>::empty()) + name =~= name);
    } else if dir[dir.len() - 1] == '/' {
        assert(j == dir + name);
        assert(j[j.len() - 1] == name[name.len() - 1]);
        assert(trim_trailing_slashes(j) == j);
        lemma_after_last_slash_of_concat(dir, name);
        assert(after_last_slash(dir) =~= Seq::<char>::empty());
        assert(after_last_slash(dir) + name =~= name);
    } else {
        let pref = dir + seq!['/'];
        assert(j =~= pref + name);
        assert(j[j.len() - 1] == name[name.len() - 1]);
        assert(trim_trailing_slashes(j) == j);
        lemma_after_last_slash_of_concat(pref, name);
        assert(pref[pref.len() - 1] == '/');
        assert(after_last_slash(pref) =~= Seq::<char>::empty());
        assert(after_last_slash(pref) + name =~= name);
    }
}

/// An artifact name composed from any original name and any well-shaped
/// stamp parses back to exactly that original name: restoring what backup
/// wrote recovers the name the backup was taken of.
pub proof fn lemma_parse_of_composed(stem: Seq<char>, stamp: Seq<char>)
    requires
        stem.len() >= 1,
        is_stamp_seq(stamp),
    ensures
        has_backup_suffix(composed_name(stem, stamp)),
        has_stamp_segment(composed_name(stem, stamp)),
        restored_stem(composed_name(stem, stamp)) == stem,
{
    let s = composed_name(stem, stamp);
    assert(s.len() == stem.len() + 27);
    assert(s.subrange(s.len() - 26, s.len() - 7) =~= stamp);
    assert(restored_stem(s) =~= stem);
}

} // verus!
