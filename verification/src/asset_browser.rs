//! The asset browser: which entries of a directory listing open a scene,
//! which are shown with an icon, and which are shown plainly.

use vstd::prelude::*;
use vstd::string::StringExecFns;
use crate::icons::{file_kind_of, get_file_icon_label, icon_of, label_of};
use crate::text::{lowercase_of, str_eq};

verus! {

/// The state of the browser window.
#[derive(Debug, Clone)]
pub struct AssetBrowser {
    pub open: bool,
    pub current_dir: String,
}

/// What the user asked for in the browser.
#[derive(Debug, Clone, PartialEq, Eq)]
pub enum AssetAction {
    /// Nothing was asked for.
    NoAction,
    /// Load the scene at the path.
    LoadScene(String),
}

/// How the browser shows a file.
#[derive(Debug, Clone, Copy, PartialEq, Eq, Structural)]
pub enum EntryPresentation {
    /// A scene: shown with its icon, and a click loads it.
    Selectable,
    /// A model, image, shader or sound: shown with its icon.
    Labeled,
    /// Anything else: shown by its bare name.
    Plain,
}

/// How the browser shows a file with the given extension. Extensions are
/// compared as they are written.
pub open spec fn presentation_of(extension: Seq<char>) -> EntryPresentation {
    if extension == "dmoon"@ {
        EntryPresentation::Selectable
    } else if extension == "gltf"@ || extension == "glb"@ || extension == "png"@ || extension
        == "jpg"@ || extension == "jpeg"@ || extension == "tga"@ || extension == "dds"@
        || extension == "hdr"@ || extension == "exr"@ || extension == "hlsl"@ || extension
        == "glsl"@ || extension == "wgsl"@ || extension == "wav"@ || extension == "mp3"@
        || extension == "ogg"@ {
        EntryPresentation::Labeled
    } else {
        EntryPresentation::Plain
    }
}

/// The text under which the browser shows a file.
pub open spec fn entry_text_of(extension: Seq<char>, file_name: Seq<char>) -> Seq<char> {
    if presentation_of(extension) == EntryPresentation::Plain {
        file_name
    } else {
        label_of(icon_of(file_kind_of(lowercase_of(extension)))@, file_name)
    }
}

impl AssetBrowser {
    /// An open browser on the directory `assets`.
    pub fn new() -> (r: AssetBrowser)
        ensures
            r.open,
            r.current_dir@ == "assets"@,
    {
        AssetBrowser { open: true, current_dir: String::from_str("assets") }
    }

    /// How the browser shows a file with the given extension.
    pub fn presentation(extension: &str) -> (r: EntryPresentation)
        ensures
            r == presentation_of(extension@),
    {
        if str_eq(extension, "dmoon") {
            EntryPresentation::Selectable
        } else if str_eq(extension, "gltf") || str_eq(extension, "glb") || str_eq(extension, "png")
            || str_eq(extension, "jpg") || str_eq(extension, "jpeg") || str_eq(extension, "tga")
            || str_eq(extension, "dds") || str_eq(extension, "hdr") || str_eq(extension, "exr")
            || str_eq(extension, "hlsl") || str_eq(extension, "glsl") || str_eq(extension, "wgsl")
            || str_eq(extension, "wav") || str_eq(extension, "mp3") || str_eq(extension, "ogg") {
            EntryPresentation::Labeled
        } else {
            EntryPresentation::Plain
        }
    }

    /// The text under which the browser shows a file: its name behind the
    /// icon of its type, or its bare name.
    pub fn entry_text(extension: &str, file_name: &str) -> (r: String)
        ensures
            r@ == entry_text_of(extension@, file_name@),
    {
        match Self::presentation(extension) {
            EntryPresentation::Plain => String::from_str(file_name),
            _ => get_file_icon_label(extension, file_name),
        }
    }

    /// What a click on a file asks for: to load it, if it is a scene.
    pub fn click(extension: &str, path: &str) -> (r: AssetAction)
        ensures
            match r {
                AssetAction::LoadScene(scene) => presentation_of(extension@)
                    == EntryPresentation::Selectable && scene@ == path@,
                AssetAction::NoAction => presentation_of(extension@) != EntryPresentation::Selectable,
            },
    {
        match Self::presentation(extension) {
            EntryPresentation::Selectable => AssetAction::LoadScene(String::from_str(path)),
            _ => AssetAction::NoAction,
        }
    }
}

} // verus!
