//! Scene files and files dropped on the window: what a dropped file is
//! taken for, which icon stands for a scene element, and where a scene file
//! names its mesh.

use vstd::prelude::*;
use vstd::string::StringExecFns;
use crate::text::{
    chars_of, extension_of, file_extension, find_last, is_substring, last_index_of, lowercase_of,
    str_contains, str_eq, to_lowercase,
};

verus! {

/// What the engine does with a file that was dropped on its window.
#[derive(Debug, Clone, Copy, PartialEq, Eq, Structural)]
pub enum DropAction {
    /// Use the image as the environment light.
    LoadIbl,
    /// Load the scene.
    LoadScene,
    /// Add the mesh to the scene.
    AddMesh,
    /// Leave the file alone.
    Ignore,
}

/// What a file with the given extension is taken for. Extensions are
/// compared as they are written; a file without extension is left alone.
pub open spec fn drop_action_of(extension: Option<Seq<char>>) -> DropAction {
    match extension {
        Some(ext) => if ext == "hdr"@ || ext == "exr"@ {
            DropAction::LoadIbl
        } else if ext == "ron"@ || ext == "dmoon"@ {
            DropAction::LoadScene
        } else if ext == "gltf"@ || ext == "glb"@ {
            DropAction::AddMesh
        } else {
            DropAction::Ignore
        },
        None => DropAction::Ignore,
    }
}

/// What the engine does with a dropped file, by its extension.
pub fn dropped_file_action(path: &str) -> (r: DropAction)
    ensures
        r == drop_action_of(extension_of(path@)),
{
    match file_extension(path) {
        Some(ext) => {
            if str_eq(ext, "hdr") || str_eq(ext, "exr") {
                DropAction::LoadIbl
            } else if str_eq(ext, "ron") || str_eq(ext, "dmoon") {
                DropAction::LoadScene
            } else if str_eq(ext, "gltf") || str_eq(ext, "glb") {
                DropAction::AddMesh
            } else {
                DropAction::Ignore
            }
        },
        None => DropAction::Ignore,
    }
}

/// Where the mesh of a scene element comes from.
#[derive(Debug, Clone, PartialEq, Eq)]
pub enum MeshSource {
    /// A file at the given path.
    File(String),
    /// The mesh cache.
    Cache,
}

/// The icon that stands for a scene element.
#[derive(Debug, Clone, Copy, PartialEq, Eq, Structural)]
pub enum ElementIcon {
    /// A group of objects.
    ObjectGroup,
    /// A scene.
    Film,
    /// A mesh.
    Cube,
    /// Something from the cache.
    Gear,
}

/// The icon of an element: a group for a compound, a gear for a cached
/// mesh, a film for a scene file, a cube for every other file.
pub open spec fn element_icon_of(is_compound: bool, source: MeshSource) -> ElementIcon {
    if is_compound {
        ElementIcon::ObjectGroup
    } else {
        match source {
            MeshSource::File(path) => match extension_of(path@) {
                Some(ext) => if lowercase_of(ext) == "dmoon"@ {
                    ElementIcon::Film
                } else {
                    ElementIcon::Cube
                },
                None => ElementIcon::Cube,
            },
            MeshSource::Cache => ElementIcon::Gear,
        }
    }
}

/// The icon of a scene element.
pub fn get_element_icon(is_compound: bool, source: &MeshSource) -> (r: ElementIcon)
    ensures
        r == element_icon_of(is_compound, *source),
{
    if is_compound {
        ElementIcon::ObjectGroup
    } else {
        match source {
            MeshSource::File(path) => match file_extension(path.as_str()) {
                Some(ext) => {
                    let lower = to_lowercase(ext);
                    if str_eq(lower.as_str(), "dmoon") {
                        ElementIcon::Film
                    } else {
                        ElementIcon::Cube
                    }
                },
                None => ElementIcon::Cube,
            },
            MeshSource::Cache => ElementIcon::Gear,
        }
    }
}

/// Position of the first occurrence of `c` in `s` from `from` on, or the
/// length of `s` when there is none.
pub open spec fn next_index_of(s: Seq<char>, c: char, from: int) -> int
    decreases s.len() - from,
{
    if from < 0 || from >= s.len() {
        s.len() as int
    } else if s[from] == c {
        from
    } else {
        next_index_of(s, c, from + 1)
    }
}

/// What is left of a text once the slashes at its start are taken away.
pub open spec fn without_leading_slashes(s: Seq<char>) -> Seq<char>
    decreases s.len(),
{
    if s.len() > 0 && s[0] == '/' {
        without_leading_slashes(s.drop_first())
    } else {
        s
    }
}

/// Whether a line of a scene file names a mesh: it holds `mesh:` and the
/// extension of a mesh file.
pub open spec fn names_mesh(line: Seq<char>) -> bool {
    is_substring("mesh:"@, line) && (is_substring(".gltf"@, line) || is_substring(".glb"@, line))
}

/// The path of the mesh that a line names: the text between the first and
/// the last quotation mark of the line, without the slashes at its start,
/// below the directory `assets`. Nothing where the line names no mesh or has
/// fewer than two quotation marks.
pub open spec fn mesh_path_in_line(line: Seq<char>) -> Option<Seq<char>> {
    let start = next_index_of(line, '"', 0);
    let end = last_index_of(line, '"');
    if names_mesh(line) && start < end {
        Some("assets/"@ + without_leading_slashes(line.subrange(start + 1, end)))
    } else {
        None
    }
}

/// The mesh path of the first line, from position `from` on, that has one.
/// Lines end at line feeds.
pub open spec fn mesh_path_from(content: Seq<char>, from: int) -> Option<Seq<char>>
    decreases content.len() - from,
    via mesh_path_from_decreases
{
    if from < 0 || from > content.len() {
        None
    } else {
        let end = next_index_of(content, '\n', from);
        match mesh_path_in_line(content.subrange(from, end)) {
            Some(path) => Some(path),
            None => if end >= content.len() {
                None
            } else {
                mesh_path_from(content, end + 1)
            },
        }
    }
}

#[via_fn]
proof fn mesh_path_from_decreases(content: Seq<char>, from: int) {
    if 0 <= from <= content.len() {
        lemma_next_index_bounds(content, '\n', from);
    }
}

/// What [`next_index_of`] finds lies between `from` and the end.
pub proof fn lemma_next_index_bounds(s: Seq<char>, c: char, from: int)
    requires
        0 <= from <= s.len(),
    ensures
        from <= next_index_of(s, c, from) <= s.len(),
        next_index_of(s, c, from) < s.len() ==> s[next_index_of(s, c, from)] == c,
    decreases s.len() - from,
{
    if from < s.len() && s[from] != c {
        lemma_next_index_bounds(s, c, from + 1);
    }
}

/// Position of the first occurrence of `c` from `from` on.
fn find_next(chars: &Vec<char>, c: char, from: usize) -> (r: usize)
    requires
        from <= chars.len(),
    ensures
        r == next_index_of(chars@, c, from as int),
        from <= r <= chars.len(),
{
    let mut i: usize = from;
    while i < chars.len() && chars[i] != c
        invariant
            from <= i <= chars.len(),
            next_index_of(chars@, c, from as int) == next_index_of(chars@, c, i as int),
        decreases chars.len() - i,
    {
        i += 1;
    }
    i
}

/// The number of slashes at the start of the characters.
fn count_leading_slashes(chars: &Vec<char>) -> (r: usize)
    ensures
        r <= chars.len(),
        without_leading_slashes(chars@) == chars@.subrange(r as int, chars.len() as int),
{
    let mut i: usize = 0;
    assert(chars@.subrange(0, chars.len() as int) =~= chars@);
    while i < chars.len() && chars[i] == '/'
        invariant
            i <= chars.len(),
            without_leading_slashes(chars@) == without_leading_slashes(
                chars@.subrange(i as int, chars.len() as int),
            ),
        decreases chars.len() - i,
    {
        assert(chars@.subrange(i as int, chars.len() as int).drop_first() =~= chars@.subrange(
            i + 1,
            chars.len() as int,
        ));
        i += 1;
    }
    i
}

/// The path of the mesh that a line of a scene file names, if any.
pub fn mesh_path_of_line(line: &str) -> (r: Option<String>)
    ensures
        match r {
            Some(path) => mesh_path_in_line(line@) == Some(path@),
            None => mesh_path_in_line(line@) is None,
        },
{
    if !(str_contains(line, "mesh:") && (str_contains(line, ".gltf") || str_contains(
        line,
        ".glb",
    ))) {
        return None;
    }
    let chars = chars_of(line);
    let start = find_next(&chars, '"', 0);
    match find_last(&chars, '"') {
        Some(end) => {
            if start < end {
                let quoted = line.substring_char(start + 1, end);
                let quoted_chars = chars_of(quoted);
                let skip = count_leading_slashes(&quoted_chars);
                let mut full_path = String::from_str("assets/");
                full_path.append(quoted.substring_char(skip, quoted_chars.len()));
                Some(full_path)
            } else {
                None
            }
        },
        None => None,
    }
}

/// The path of the mesh that a scene file names: that of the first line
/// which names one between quotation marks.
pub fn extract_gltf_path_from_dmoon(content: &str) -> (r: Option<String>)
    ensures
        match r {
            Some(path) => mesh_path_from(content@, 0) == Some(path@),
            None => mesh_path_from(content@, 0) is None,
        },
{
    let chars = chars_of(content);
    let mut from: usize = 0;
    loop
        invariant
            chars@ == content@,
            from <= chars.len(),
            mesh_path_from(content@, 0) == mesh_path_from(content@, from as int),
        decreases chars.len() - from,
    {
        let end = find_next(&chars, '\n', from);
        let line = content.substring_char(from, end);
        match mesh_path_of_line(line) {
            Some(path) => {
                return Some(path);
            },
            None => {},
        }
        if end >= chars.len() {
            return None;
        }
        from = end + 1;
    }
}

} // verus!
