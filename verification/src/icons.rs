//! Icons of the asset browser: the glyphs of the icon font, the icon that
//! stands for a file type, and labels made of an icon and a name.

use vstd::prelude::*;
use vstd::string::StringExecFns;
use crate::text::{lowercase_of, str_eq, to_lowercase};

verus! {

/// First code point of the icon font.
pub const ICON_MIN_FA: u16 = 0xe000;

/// Last code point of the icon font that fits in sixteen bits.
pub const ICON_MAX_16_FA: u16 = 0xf8ff;

/// Last code point of the icon font.
pub const ICON_MAX_FA: u32 = 0x10ffff;

pub const ICON_FA_FILE: &'static str = "\u{f15b}";

pub const ICON_FA_FOLDER: &'static str = "\u{f07b}";

pub const ICON_FA_FOLDER_OPEN: &'static str = "\u{f07c}";

pub const ICON_FA_SCENE: &'static str = "\u{f008}";

pub const ICON_FA_MODEL: &'static str = "\u{f1b2}";

pub const ICON_FA_TEXTURE: &'static str = "\u{f03e}";

pub const ICON_FA_SHADER: &'static str = "\u{f0e7}";

pub const ICON_FA_AUDIO: &'static str = "\u{f028}";

pub const ICON_FA_MESH: &'static str = "\u{f5fd}";

pub const ICON_FA_PLAY: &'static str = "\u{f04b}";

pub const ICON_FA_PAUSE: &'static str = "\u{f04c}";

pub const ICON_FA_STOP: &'static str = "\u{f04d}";

pub const ICON_FA_COGS: &'static str = "\u{f085}";

pub const ICON_FA_EYE: &'static str = "\u{f06e}";

pub const ICON_FA_EYE_SLASH: &'static str = "\u{f070}";

pub const ICON_FA_CODE: &'static str = "\u{f121}";

pub const ICON_FA_BUG: &'static str = "\u{f188}";

pub const ICON_FA_WRENCH: &'static str = "\u{f0ad}";

pub const ICON_FA_PALETTE: &'static str = "\u{f53f}";

pub const ICON_FA_LIGHTBULB: &'static str = "\u{f0eb}";

pub const ICON_FA_CAMERA: &'static str = "\u{f030}";

pub const ICON_FA_ARROWS_ALT: &'static str = "\u{f0b2}";

pub const ICON_FA_EXPAND_ARROWS: &'static str = "\u{f31e}";

pub const ICON_FA_SYNC_ALT: &'static str = "\u{f2f1}";

pub const ICON_FA_VECTOR_SQUARE: &'static str = "\u{f5cb}";

pub const ICON_FA_CROSSHAIRS: &'static str = "\u{f05b}";

pub const ICON_FA_SUN: &'static str = "\u{f185}";

pub const ICON_FA_MOON: &'static str = "\u{f186}";

pub const ICON_FA_FIRE: &'static str = "\u{f06d}";

pub const ICON_FA_WATER: &'static str = "\u{f773}";

pub const ICON_FA_CLOUD: &'static str = "\u{f0c2}";

pub const ICON_FA_HOME: &'static str = "\u{f015}";

pub const ICON_FA_SEARCH: &'static str = "\u{f002}";

pub const ICON_FA_PLUS: &'static str = "\u{f067}";

pub const ICON_FA_MINUS: &'static str = "\u{f068}";

pub const ICON_FA_TIMES: &'static str = "\u{f00d}";

pub const ICON_FA_CHECK: &'static str = "\u{f00c}";

pub const ICON_FA_SAVE: &'static str = "\u{f0c7}";

pub const ICON_FA_FOLDER_PLUS: &'static str = "\u{f65e}";

pub const ICON_FA_DOWNLOAD: &'static str = "\u{f019}";

pub const ICON_FA_UPLOAD: &'static str = "\u{f093}";

pub const ICON_FA_DATABASE: &'static str = "\u{f1c0}";

pub const ICON_FA_TACHOMETER: &'static str = "\u{f3f4}";

pub const ICON_FA_MEMORY: &'static str = "\u{f538}";

pub const ICON_FA_MICROCHIP: &'static str = "\u{f2db}";

pub const ICON_FA_CHART_BAR: &'static str = "\u{f080}";

pub const FONT_ICON_FILE_NAME_FAS: &'static str = "fa-solid-900.otf";

pub const FONT_ICON_FILE_NAME_FAB: &'static str = "fa-brands-400.otf";

pub const FONT_ICON_FILE_NAME_FAR: &'static str = "fa-regular-400.otf";

/// The kind of file that an extension in lower case stands for.
#[derive(Debug, Clone, Copy, PartialEq, Eq, Structural)]
pub enum FileKind {
    Scene,
    Model,
    Texture,
    Shader,
    Audio,
    Code,
    Config,
    Other,
}

/// The kind of file that an extension in lower case stands for.
pub open spec fn file_kind_of(ext: Seq<char>) -> FileKind {
    if ext == "dmoon"@ {
        FileKind::Scene
    } else if ext == "gltf"@ || ext == "glb"@ || ext == "obj"@ || ext == "fbx"@ || ext == "dae"@ || ext == "3ds"@ || ext == "blend"@ {
        FileKind::Model
    } else if ext == "png"@ || ext == "jpg"@ || ext == "jpeg"@ || ext == "bmp"@ || ext == "tga"@ || ext == "dds"@ || ext == "hdr"@ || ext == "exr"@ || ext == "tiff"@ {
        FileKind::Texture
    } else if ext == "hlsl"@ || ext == "glsl"@ || ext == "wgsl"@ || ext == "vert"@ || ext == "frag"@ || ext == "geom"@ || ext == "comp"@ || ext == "tesc"@ || ext == "tese"@ {
        FileKind::Shader
    } else if ext == "wav"@ || ext == "mp3"@ || ext == "ogg"@ || ext == "flac"@ || ext == "aac"@ || ext == "m4a"@ {
        FileKind::Audio
    } else if ext == "rs"@ || ext == "cpp"@ || ext == "c"@ || ext == "h"@ || ext == "hpp"@ || ext == "cs"@ || ext == "py"@ || ext == "js"@ || ext == "ts"@ {
        FileKind::Code
    } else if ext == "toml"@ || ext == "yaml"@ || ext == "yml"@ || ext == "json"@ || ext == "xml"@ || ext == "ini"@ || ext == "cfg"@ {
        FileKind::Config
    } else {
        FileKind::Other
    }
}

/// The icon of a kind of file.
pub open spec fn icon_of(kind: FileKind) -> &'static str {
    match kind {
        FileKind::Scene => ICON_FA_SCENE,
        FileKind::Model => ICON_FA_MODEL,
        FileKind::Texture => ICON_FA_TEXTURE,
        FileKind::Shader => ICON_FA_SHADER,
        FileKind::Audio => ICON_FA_AUDIO,
        FileKind::Code => ICON_FA_CODE,
        FileKind::Config => ICON_FA_COGS,
        FileKind::Other => ICON_FA_FILE,
    }
}

/// An icon, a blank and a text.
pub open spec fn label_of(icon: Seq<char>, text: Seq<char>) -> Seq<char> {
    icon + " "@ + text
}

/// The kind of file that an extension stands for, if it is in lower case already.
pub fn classify_extension(ext: &str) -> (r: FileKind)
    ensures
        r == file_kind_of(ext@),
{
    if str_eq(ext, "dmoon") {
        FileKind::Scene
    } else if str_eq(ext, "gltf") || str_eq(ext, "glb") || str_eq(ext, "obj") || str_eq(ext, "fbx") || str_eq(ext, "dae") || str_eq(ext, "3ds") || str_eq(ext, "blend") {
        FileKind::Model
    } else if str_eq(ext, "png") || str_eq(ext, "jpg") || str_eq(ext, "jpeg") || str_eq(ext, "bmp") || str_eq(ext, "tga") || str_eq(ext, "dds") || str_eq(ext, "hdr") || str_eq(ext, "exr") || str_eq(ext, "tiff") {
        FileKind::Texture
    } else if str_eq(ext, "hlsl") || str_eq(ext, "glsl") || str_eq(ext, "wgsl") || str_eq(ext, "vert") || str_eq(ext, "frag") || str_eq(ext, "geom") || str_eq(ext, "comp") || str_eq(ext, "tesc") || str_eq(ext, "tese") {
        FileKind::Shader
    } else if str_eq(ext, "wav") || str_eq(ext, "mp3") || str_eq(ext, "ogg") || str_eq(ext, "flac") || str_eq(ext, "aac") || str_eq(ext, "m4a") {
        FileKind::Audio
    } else if str_eq(ext, "rs") || str_eq(ext, "cpp") || str_eq(ext, "c") || str_eq(ext, "h") || str_eq(ext, "hpp") || str_eq(ext, "cs") || str_eq(ext, "py") || str_eq(ext, "js") || str_eq(ext, "ts") {
        FileKind::Code
    } else if str_eq(ext, "toml") || str_eq(ext, "yaml") || str_eq(ext, "yml") || str_eq(ext, "json") || str_eq(ext, "xml") || str_eq(ext, "ini") || str_eq(ext, "cfg") {
        FileKind::Config
    } else {
        FileKind::Other
    }
}

/// The icon of a kind of file.
pub fn icon_for_kind(kind: FileKind) -> (r: &'static str)
    ensures
        r == icon_of(kind),
{
    match kind {
        FileKind::Scene => ICON_FA_SCENE,
        FileKind::Model => ICON_FA_MODEL,
        FileKind::Texture => ICON_FA_TEXTURE,
        FileKind::Shader => ICON_FA_SHADER,
        FileKind::Audio => ICON_FA_AUDIO,
        FileKind::Code => ICON_FA_CODE,
        FileKind::Config => ICON_FA_COGS,
        FileKind::Other => ICON_FA_FILE,
    }
}

/// The icon for a file with the given extension, compared without regard to case.
pub fn get_file_icon(extension: &str) -> (r: &'static str)
    ensures
        r == icon_of(file_kind_of(lowercase_of(extension@))),
{
    let lower = to_lowercase(extension);
    icon_for_kind(classify_extension(lower.as_str()))
}

/// A label for the user interface: the icon, a blank and the text.
pub fn create_icon_label(icon: &str, text: &str) -> (r: String)
    ensures
        r@ == label_of(icon@, text@),
{
    let mut label = String::from_str(icon);
    label.append(" ");
    label.append(text);
    label
}

/// The label of a file: the icon of its extension and its name.
pub fn get_file_icon_label(extension: &str, filename: &str) -> (r: String)
    ensures
        r@ == label_of(icon_of(file_kind_of(lowercase_of(extension@)))@, filename@),
{
    let icon = get_file_icon(extension);
    create_icon_label(icon, filename)
}

/// The label of a folder: the icon of an open or a closed folder and its name.
pub fn get_folder_icon_label(foldername: &str, is_open: bool) -> (r: String)
    ensures
        r@ == label_of(
            if is_open {
                ICON_FA_FOLDER_OPEN@
            } else {
                ICON_FA_FOLDER@
            },
            foldername@,
        ),
{
    let icon = if is_open {
        ICON_FA_FOLDER_OPEN
    } else {
        ICON_FA_FOLDER
    };
    create_icon_label(icon, foldername)
}

/// A label for the user interface: the icon, a blank and the text.
pub fn create_icon_label_helper(icon: &str, text: &str) -> (r: String)
    ensures
        r@ == label_of(icon@, text@),
{
    create_icon_label(icon, text)
}

/// The label of a file: the icon of its extension and its name.
pub fn get_file_icon_label_helper(extension: &str, filename: &str) -> (r: String)
    ensures
        r@ == label_of(icon_of(file_kind_of(lowercase_of(extension@)))@, filename@),
{
    let icon = get_file_icon(extension);
    create_icon_label_helper(icon, filename)
}

/// The label of a closed folder.
pub fn get_folder_icon_label_helper(foldername: &str) -> (r: String)
    ensures
        r@ == label_of(ICON_FA_FOLDER@, foldername@),
{
    create_icon_label_helper(ICON_FA_FOLDER, foldername)
}

} // verus!
