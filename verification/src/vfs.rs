//! Virtual file system paths: the mount points of the asset directories and
//! the mapping of a path on disk to a path under its mount point.

use vstd::prelude::*;
use vstd::string::StringExecFns;
use crate::text::chars_of;

verus! {

/// The number of mount points.
pub const MOUNT_COUNT: usize = 5;

/// The mount point with the given number.
pub open spec fn mount_point_of(index: int) -> Seq<char> {
    if index == 0 {
        "/meshes"@
    } else if index == 1 {
        "/images"@
    } else if index == 2 {
        "/shaders"@
    } else if index == 3 {
        "/rust-shaders-compiled"@
    } else {
        "/cache"@
    }
}

/// The directory, relative to the project, that is mounted at the mount
/// point with the given number.
pub open spec fn mounted_directory_of(index: int) -> Seq<char> {
    if index == 0 {
        "assets/meshes"@
    } else if index == 1 {
        "assets/images"@
    } else if index == 2 {
        "assets/shaders"@
    } else if index == 3 {
        "assets/rust-shaders-compiled"@
    } else {
        "cache"@
    }
}

/// `path` begins with `prefix`.
pub open spec fn is_prefix(prefix: Seq<char>, path: Seq<char>) -> bool {
    prefix.len() <= path.len() && path.subrange(0, prefix.len() as int) == prefix
}

/// `path` is `root` or lies below it: it begins with `root`, and ends
/// there, or goes on behind a `/`.
pub open spec fn lies_under(path: Seq<char>, root: Seq<char>) -> bool {
    is_prefix(root, path) && (path.len() == root.len() || (root.len() > 0 && root.last() == '/')
        || path[root.len() as int] == '/')
}

/// What is left of a path under `root` once `root` and the `/` behind it
/// are taken away.
pub open spec fn relative_to(path: Seq<char>, root: Seq<char>) -> Seq<char> {
    if path.len() > root.len() && path[root.len() as int] == '/' && !(root.len() > 0
        && root.last() == '/') {
        path.subrange(root.len() as int + 1, path.len() as int)
    } else {
        path.subrange(root.len() as int, path.len() as int)
    }
}

/// The virtual path of a canonical path, looking at the mount points from
/// number `from` on: the first mount point under whose directory the path
/// lies, a `/`, and the path relative to that directory. Nothing where a
/// directory that had to be looked at has no canonical form, or where the
/// path lies under none.
pub open spec fn vfs_path_from(
    path: Seq<char>,
    roots: Seq<Option<Seq<char>>>,
    from: int,
) -> Option<Seq<char>>
    decreases MOUNT_COUNT - from,
{
    if from < 0 || from >= MOUNT_COUNT || from >= roots.len() {
        None
    } else {
        match roots[from] {
            None => None,
            Some(root) => if lies_under(path, root) {
                Some(mount_point_of(from) + "/"@ + relative_to(path, root))
            } else {
                vfs_path_from(path, roots, from + 1)
            },
        }
    }
}

/// The character views of the canonical forms of the mounted directories.
pub open spec fn roots_view(roots: Seq<Option<String>>) -> Seq<Option<Seq<char>>> {
    Seq::new(
        roots.len(),
        |i: int|
            match roots[i] {
                Some(root) => Some(root@),
                None => None,
            },
    )
}

/// The mount point with the given number.
pub fn mount_point(index: usize) -> (r: &'static str)
    ensures
        r@ == mount_point_of(index as int),
{
    if index == 0 {
        "/meshes"
    } else if index == 1 {
        "/images"
    } else if index == 2 {
        "/shaders"
    } else if index == 3 {
        "/rust-shaders-compiled"
    } else {
        "/cache"
    }
}

/// The directory that is mounted at the mount point with the given number.
pub fn mounted_directory(index: usize) -> (r: &'static str)
    ensures
        r@ == mounted_directory_of(index as int),
{
    if index == 0 {
        "assets/meshes"
    } else if index == 1 {
        "assets/images"
    } else if index == 2 {
        "assets/shaders"
    } else if index == 3 {
        "assets/rust-shaders-compiled"
    } else {
        "cache"
    }
}

/// Whether the path begins with the root.
fn starts_with(path: &Vec<char>, root: &Vec<char>) -> (r: bool)
    ensures
        r == is_prefix(root@, path@),
{
    if root.len() > path.len() {
        return false;
    }
    let mut i: usize = 0;
    while i < root.len()
        invariant
            i <= root.len() <= path.len(),
            path@.subrange(0, i as int) == root@.subrange(0, i as int),
        decreases root.len() - i,
    {
        if path[i] != root[i] {
            assert(path@.subrange(0, root.len() as int)[i as int] != root@[i as int]);
            return false;
        }
        assert(path@.subrange(0, i + 1) =~= path@.subrange(0, i as int).push(path@[i as int]));
        assert(root@.subrange(0, i + 1) =~= root@.subrange(0, i as int).push(root@[i as int]));
        i += 1;
    }
    assert(root@.subrange(0, root.len() as int) =~= root@);
    true
}

/// The virtual path of a file: its path under the mount point of the
/// directory in which it lies.
///
/// `canonical_path` is the canonical form of the file's path, and `roots`
/// holds the canonical forms of the mounted directories, in the order of
/// their mount points; either is missing where the file system gave none.
/// The mount points are tried in order, and the first under whose directory
/// the path lies decides. A directory without canonical form ends the search
/// with nothing.
pub fn to_vfs_path(canonical_path: Option<&str>, roots: &Vec<Option<String>>) -> (r: Option<String>)
    ensures
        match canonical_path {
            None => r is None,
            Some(path) => match r {
                Some(vfs_path) => vfs_path_from(path@, roots_view(roots@), 0) == Some(vfs_path@),
                None => vfs_path_from(path@, roots_view(roots@), 0) is None,
            },
        },
{
    let path = match canonical_path {
        Some(path) => path,
        None => {
            return None;
        },
    };
    let path_chars = chars_of(path);
    let mut index: usize = 0;
    while index < MOUNT_COUNT && index < roots.len()
        invariant
            canonical_path == Some(path),
            path_chars@ == path@,
            index <= MOUNT_COUNT,
            vfs_path_from(path@, roots_view(roots@), 0) == vfs_path_from(
                path@,
                roots_view(roots@),
                index as int,
            ),
        decreases MOUNT_COUNT - index,
    {
        match &roots[index] {
            None => {
                return None;
            },
            Some(root) => {
                let root_chars = chars_of(root.as_str());
                assert(roots_view(roots@)[index as int] == Some(root@));
                if starts_with(&path_chars, &root_chars) {
                    let root_len = root_chars.len();
                    let root_ends_in_slash = root_len > 0 && root_chars[root_len - 1] == '/';
                    let path_goes_on = path_chars.len() > root_len;
                    if !path_goes_on || root_ends_in_slash || path_chars[root_len] == '/' {
                        let start: usize = if path_goes_on && path_chars[root_len] == '/'
                            && !root_ends_in_slash {
                            root_len + 1
                        } else {
                            root_len
                        };
                        let mut vfs_path = String::from_str(mount_point(index));
                        vfs_path.append("/");
                        vfs_path.append(path.substring_char(start, path_chars.len()));
                        return Some(vfs_path);
                    }
                }
            },
        }
        index += 1;
    }
    None
}

} // verus!
