//! Asset loading: request and payload types, category detection from file
//! extensions, tier-dependent post-processing and the bounded count of loads
//! in flight.
//!
//! Reading a file is left to the caller, who hands the outcome over as a
//! [`FileRead`]; everything that follows from it is decided here.

use vstd::prelude::*;
use vstd::string::StringExecFns;
use crate::level_of_detail::LodLevel;
use crate::text::{
    extension_of, file_extension, is_substring, lemma_path_ending_in_slash, str_contains, str_eq,
    to_uppercase, uppercase_of,
};
use crate::ResourceId;

verus! {

/// Urgency that a caller attaches to a load request.
#[derive(Debug, Clone, Copy, PartialEq, Eq, Structural, PartialOrd, Ord)]
pub enum LoadPriority {
    Low,
    Medium,
    High,
    Critical,
}

/// A request to load one asset at a quality tier.
#[derive(Debug, Clone)]
pub struct LoadRequest {
    pub resource_id: ResourceId,
    pub path: String,
    pub priority: LoadPriority,
    pub lod_level: LodLevel,
}

/// What a load request holds.
pub struct LoadRequestView {
    pub resource_id: Seq<char>,
    pub path: Seq<char>,
    pub priority: LoadPriority,
    pub lod_level: LodLevel,
}

impl View for LoadRequest {
    type V = LoadRequestView;

    open spec fn view(&self) -> LoadRequestView {
        LoadRequestView {
            resource_id: self.resource_id@,
            path: self.path@,
            priority: self.priority,
            lod_level: self.lod_level,
        }
    }
}

impl LoadRequest {
    /// A copy of the request.
    pub fn duplicate(&self) -> (r: LoadRequest)
        ensures
            r@ == self@,
    {
        LoadRequest {
            resource_id: self.resource_id.clone(),
            path: self.path.clone(),
            priority: self.priority,
            lod_level: self.lod_level,
        }
    }
}

/// Category of an asset, detected from its file extension.
#[derive(Debug, Clone, Copy, PartialEq, Eq, Structural)]
pub enum AssetType {
    Mesh,
    Texture,
    Material,
    Audio,
    Scene,
    Unknown,
}

/// Facts about a loaded asset.
#[derive(Debug, Clone)]
pub struct AssetMetadata {
    /// Size of the file as read, in bytes.
    pub original_size: u64,
    /// Size after post-processing, in bytes.
    pub compressed_size: u64,
    /// The file extension in upper case, or `UNKNOWN`.
    pub format: String,
    /// When the file was created, in nanoseconds since the Unix epoch.
    pub creation_time: u128,
    /// The tier that was asked for.
    pub lod_level: LodLevel,
}

impl Default for AssetMetadata {
    fn default() -> (r: AssetMetadata)
        ensures
            r.original_size == 0,
            r.compressed_size == 0,
            r.format@ == Seq::<char>::empty(),
            r.creation_time == 0,
            r.lod_level == LodLevel::Medium,
    {
        AssetMetadata {
            original_size: 0,
            compressed_size: 0,
            format: String::new(),
            creation_time: 0,
            lod_level: LodLevel::Medium,
        }
    }
}

/// A loaded asset: its category, its bytes and facts about it.
#[derive(Debug, Clone)]
pub struct AssetData {
    pub asset_type: AssetType,
    pub data: Vec<u8>,
    pub metadata: AssetMetadata,
}

impl AssetData {
    /// The number of bytes of the payload.
    pub fn len(&self) -> (r: usize)
        ensures
            r == self.data@.len(),
    {
        self.data.len()
    }

    /// Whether the payload has no bytes.
    pub fn is_empty(&self) -> (r: bool)
        ensures
            r == (self.data@.len() == 0),
    {
        self.data.len() == 0
    }
}

/// What came of reading an asset's file.
#[derive(Debug)]
pub enum FileRead {
    /// There is no file at the path.
    Missing,
    /// The file is there and could not be read; the text says why.
    Failed(String),
    /// The bytes of the file and its creation time, in nanoseconds since the
    /// Unix epoch.
    Loaded { bytes: Vec<u8>, created: u128 },
}

/// Why a load failed.
#[derive(Debug, Clone, PartialEq, Eq)]
pub enum LoadError {
    /// There is no file at the path that the error carries.
    NotFound(String),
    /// Reading failed; the error carries the reason.
    Io(String),
}

/// The text of an error: for a missing file the words `Archivo no
/// encontrado: ` and the path, for a failed read the reason as it came.
pub open spec fn error_text(error: LoadError) -> Seq<char> {
    match error {
        LoadError::NotFound(path) => "Archivo no encontrado: "@ + path@,
        LoadError::Io(reason) => reason@,
    }
}

impl LoadError {
    /// The text of the error.
    pub fn message(&self) -> (r: String)
        ensures
            r@ == error_text(*self),
    {
        match self {
            LoadError::NotFound(path) => {
                let mut text = String::from_str("Archivo no encontrado: ");
                text.append(path.as_str());
                text
            },
            LoadError::Io(reason) => reason.clone(),
        }
    }
}

/// The category that a file extension stands for. Extensions are compared
/// as they are written: `PNG` is not `png`.
pub open spec fn asset_type_of(extension: Option<Seq<char>>) -> AssetType {
    match extension {
        Some(ext) => if ext == "gltf"@ || ext == "glb"@ || ext == "obj"@ || ext == "fbx"@ {
            AssetType::Mesh
        } else if ext == "png"@ || ext == "jpg"@ || ext == "jpeg"@ || ext == "tga"@ || ext
            == "dds"@ || ext == "hdr"@ || ext == "exr"@ {
            AssetType::Texture
        } else if ext == "mtl"@ || ext == "mat"@ {
            AssetType::Material
        } else if ext == "wav"@ || ext == "mp3"@ || ext == "ogg"@ {
            AssetType::Audio
        } else if ext == "dmoon"@ || ext == "scene"@ {
            AssetType::Scene
        } else {
            AssetType::Unknown
        },
        None => AssetType::Unknown,
    }
}

/// The format of a file: its extension in upper case, or the word `unknown`
/// in upper case where it has none.
pub open spec fn format_of(path: Seq<char>) -> Seq<char> {
    match extension_of(path) {
        Some(ext) => uppercase_of(ext),
        None => uppercase_of("unknown"@),
    }
}

/// The request that preloading makes for a file: both ids are the file's
/// path, priority and tier are the lowest.
pub open spec fn preload_request_for(file: Seq<char>) -> LoadRequestView {
    LoadRequestView {
        resource_id: file,
        path: file,
        priority: LoadPriority::Low,
        lod_level: LodLevel::Low,
    }
}

/// The predicate that holds of the names in which `pattern` occurs.
pub open spec fn matches_pattern(pattern: Seq<char>) -> spec_fn(Seq<char>) -> bool {
    |name: Seq<char>| is_substring(pattern, name)
}

/// The character views of a sequence of strings.
pub open spec fn names_of(names: Seq<String>) -> Seq<Seq<char>> {
    names.map_values(|name: String| name@)
}

/// The assets of the loads that succeeded, in order.
pub open spec fn loaded_of(results: Seq<Result<AssetData, LoadError>>) -> Seq<AssetData>
    decreases results.len(),
{
    if results.len() == 0 {
        Seq::empty()
    } else {
        let rest = loaded_of(results.drop_last());
        match results.last() {
            Ok(asset) => rest.push(asset),
            Err(_) => rest,
        }
    }
}

/// Loads assets, with a bound on the number of loads in flight.
#[derive(Debug, Clone)]
pub struct AssetLoader {
    base_path: String,
    max_concurrent: usize,
    current_loads: usize,
}

/// The state of a loader.
pub struct LoaderView {
    pub base_path: Seq<char>,
    pub max_concurrent: usize,
    pub current_loads: usize,
}

impl View for AssetLoader {
    type V = LoaderView;

    closed spec fn view(&self) -> LoaderView {
        LoaderView {
            base_path: self.base_path@,
            max_concurrent: self.max_concurrent,
            current_loads: self.current_loads,
        }
    }
}

impl AssetLoader {
    /// A loader for the files under `base_path` that lets at most
    /// `max_concurrent_loads` loads run at a time. None runs yet.
    pub fn new(max_concurrent_loads: usize, base_path: &str) -> (r: AssetLoader)
        ensures
            r@.base_path == base_path@,
            r@.max_concurrent == max_concurrent_loads,
            r@.current_loads == 0,
    {
        AssetLoader {
            base_path: String::from_str(base_path),
            max_concurrent: max_concurrent_loads,
            current_loads: 0,
        }
    }

    /// The directory under which the assets lie.
    pub fn base_path(&self) -> (r: &str)
        ensures
            r@ == self@.base_path,
    {
        self.base_path.as_str()
    }

    /// The number of loads in flight.
    pub fn current_loads(&self) -> (r: usize)
        ensures
            r == self@.current_loads,
    {
        self.current_loads
    }

    /// Takes a permit for one load, if fewer than the maximum are in flight.
    pub fn try_acquire(&mut self) -> (r: bool)
        ensures
            r == (old(self)@.current_loads < old(self)@.max_concurrent),
            final(self)@.base_path == old(self)@.base_path,
            final(self)@.max_concurrent == old(self)@.max_concurrent,
            final(self)@.current_loads == if r {
                old(self)@.current_loads + 1
            } else {
                old(self)@.current_loads as int
            },
    {
        if self.current_loads < self.max_concurrent {
            self.current_loads = self.current_loads + 1;
            true
        } else {
            false
        }
    }

    /// Gives a permit back. Without a load in flight nothing changes.
    pub fn release(&mut self)
        ensures
            final(self)@.base_path == old(self)@.base_path,
            final(self)@.max_concurrent == old(self)@.max_concurrent,
            final(self)@.current_loads == if old(self)@.current_loads > 0 {
                old(self)@.current_loads - 1
            } else {
                0
            },
    {
        if self.current_loads > 0 {
            self.current_loads = self.current_loads - 1;
        }
    }

    /// Turns the outcome of reading the file at `full_path` into the asset
    /// that the request asked for. A missing file and a failed read give the
    /// matching error. Bytes that were read become the payload, after the
    /// post-processing for their category and the requested tier, with the
    /// metadata that belong to them.
    pub fn load_asset(&self, request: &LoadRequest, full_path: &str, file: FileRead) -> (r: Result<
        AssetData,
        LoadError,
    >)
        ensures
            match file {
                FileRead::Missing => r matches Err(LoadError::NotFound(path)) && path@
                    == full_path@,
                FileRead::Failed(reason) => r matches Err(LoadError::Io(text)) && text@
                    == reason@,
                FileRead::Loaded { bytes, created } => r matches Ok(asset) && {
                    &&& asset.asset_type == asset_type_of(extension_of(full_path@))
                    &&& asset.data@ == bytes@
                    &&& asset.metadata.original_size == bytes@.len()
                    &&& asset.metadata.compressed_size == bytes@.len()
                    &&& asset.metadata.format@ == format_of(full_path@)
                    &&& asset.metadata.creation_time == created
                    &&& asset.metadata.lod_level == request.lod_level
                },
            },
    {
        match file {
            FileRead::Missing => Err(LoadError::NotFound(String::from_str(full_path))),
            FileRead::Failed(reason) => Err(LoadError::Io(reason)),
            FileRead::Loaded { bytes, created } => {
                let asset_type = self.detect_asset_type(full_path);
                let original_size = bytes.len() as u64;
                match self.process_lod_data(bytes, &asset_type, request.lod_level) {
                    Ok(processed_data) => {
                        let metadata = AssetMetadata {
                            original_size,
                            compressed_size: processed_data.len() as u64,
                            format: self.get_format_string(full_path),
                            creation_time: created,
                            lod_level: request.lod_level,
                        };
                        Ok(AssetData { asset_type, data: processed_data, metadata })
                    },
                    Err(error) => Err(error),
                }
            },
        }
    }

    /// The names among `entries` in which `pattern` occurs, in order.
    pub fn find_matching_files(&self, pattern: &str, entries: &Vec<String>) -> (r: Vec<String>)
        ensures
            names_of(r@) == names_of(entries@).filter(matches_pattern(pattern@)),
    {
        let mut matching_files: Vec<String> = Vec::new();
        let mut i: usize = 0;
        assert(names_of(entries@).subrange(0, 0) =~= Seq::empty());
        assert(names_of(matching_files@) =~= Seq::empty());
        while i < entries.len()
            invariant
                i <= entries.len(),
                names_of(matching_files@) == names_of(entries@).subrange(0, i as int).filter(
                    matches_pattern(pattern@),
                ),
            decreases entries.len() - i,
        {
            let ghost before = names_of(matching_files@);
            proof {
                let names = names_of(entries@);
                assert(names.subrange(0, i + 1) =~= names.subrange(0, i as int).push(
                    names[i as int],
                ));
                names.subrange(0, i as int).lemma_filter_push(
                    names[i as int],
                    matches_pattern(pattern@),
                );
            }
            if str_contains(entries[i].as_str(), pattern) {
                matching_files.push(entries[i].clone());
                assert(names_of(matching_files@) =~= before.push(entries[i as int]@));
            }
            i += 1;
        }
        assert(names_of(entries@).subrange(0, i as int) =~= names_of(entries@));
        matching_files
    }

    /// The requests that preloading makes for the given files: one for each,
    /// in order, at the lowest priority and the lowest tier.
    pub fn preload_requests(&self, files: &Vec<String>) -> (r: Vec<LoadRequest>)
        ensures
            r@.len() == files@.len(),
            forall|i: int| 0 <= i < r@.len() ==> (#[trigger] r@[i])@ == preload_request_for(files@[i]@),
    {
        let mut load_requests: Vec<LoadRequest> = Vec::new();
        let mut i: usize = 0;
        while i < files.len()
            invariant
                i <= files.len(),
                load_requests@.len() == i,
                forall|k: int|
                    0 <= k < i ==> (#[trigger] load_requests@[k])@ == preload_request_for(
                        files@[k]@,
                    ),
            decreases files.len() - i,
        {
            load_requests.push(
                LoadRequest {
                    resource_id: files[i].clone(),
                    path: files[i].clone(),
                    priority: LoadPriority::Low,
                    lod_level: LodLevel::Low,
                },
            );
            i += 1;
        }
        load_requests
    }

    /// The assets of the loads that succeeded, in order; failures are left out.
    pub fn preload_assets(&self, results: Vec<Result<AssetData, LoadError>>) -> (r: Vec<AssetData>)
        ensures
            r@ == loaded_of(results@),
    {
        let mut successful_assets: Vec<AssetData> = Vec::new();
        let ghost all = results@;
        assert(all.subrange(0, 0) =~= Seq::empty());
        for result in it: results.into_iter()
            invariant
                it.seq() == all,
                successful_assets@ == loaded_of(all.subrange(0, it.index() as int)),
        {
            proof {
                let next = all.subrange(0, it.index() + 1);
                assert(next.drop_last() =~= all.subrange(0, it.index() as int));
                assert(next.last() == result);
            }
            match result {
                Ok(asset) => {
                    successful_assets.push(asset);
                },
                Err(_) => {},
            }
        }
        assert(all.subrange(0, all.len() as int) =~= all);
        successful_assets
    }

    /// The category of the file at a path, by its extension. The extension
    /// is read off the path as it is written: a path that ends in `/` has
    /// none, and its category is unknown.
    pub fn detect_asset_type(&self, path: &str) -> (r: AssetType)
        ensures
            r == asset_type_of(extension_of(path@)),
            path@.len() > 0 && path@.last() == '/' ==> r == AssetType::Unknown,
    {
        proof {
            if path@.len() > 0 && path@.last() == '/' {
                lemma_path_ending_in_slash(path@);
            }
        }
        match file_extension(path) {
            Some(ext) => {
                if str_eq(ext, "gltf") || str_eq(ext, "glb") || str_eq(ext, "obj") || str_eq(
                    ext,
                    "fbx",
                ) {
                    AssetType::Mesh
                } else if str_eq(ext, "png") || str_eq(ext, "jpg") || str_eq(ext, "jpeg")
                    || str_eq(ext, "tga") || str_eq(ext, "dds") || str_eq(ext, "hdr") || str_eq(
                    ext,
                    "exr",
                ) {
                    AssetType::Texture
                } else if str_eq(ext, "mtl") || str_eq(ext, "mat") {
                    AssetType::Material
                } else if str_eq(ext, "wav") || str_eq(ext, "mp3") || str_eq(ext, "ogg") {
                    AssetType::Audio
                } else if str_eq(ext, "dmoon") || str_eq(ext, "scene") {
                    AssetType::Scene
                } else {
                    AssetType::Unknown
                }
            },
            None => AssetType::Unknown,
        }
    }

    /// The format of the file at a path: its extension in upper case, or
    /// `UNKNOWN`, which is also the format of a path that ends in `/`.
    pub fn get_format_string(&self, path: &str) -> (r: String)
        ensures
            r@ == format_of(path@),
            path@.len() > 0 && path@.last() == '/' ==> r@ == uppercase_of("unknown"@),
    {
        proof {
            if path@.len() > 0 && path@.last() == '/' {
                lemma_path_ending_in_slash(path@);
            }
        }
        match file_extension(path) {
            Some(ext) => to_uppercase(ext),
            None => to_uppercase("unknown"),
        }
    }

    /// Post-processes the bytes of an asset for a tier. Textures and meshes
    /// have their own steps; every other category passes through.
    pub fn process_lod_data(&self, data: Vec<u8>, asset_type: &AssetType, lod_level: LodLevel) -> (r:
        Result<Vec<u8>, LoadError>)
        ensures
            r matches Ok(processed) && processed@ == data@,
    {
        match asset_type {
            AssetType::Texture => self.process_texture_lod(data, lod_level),
            AssetType::Mesh => self.process_mesh_lod(data, lod_level),
            _ => Ok(data),
        }
    }

    /// Post-processes a texture. `High` passes through; `Medium` and `Low`
    /// are where a reduction of the resolution belongs, and pass through too.
    pub fn process_texture_lod(&self, data: Vec<u8>, lod_level: LodLevel) -> (r: Result<
        Vec<u8>,
        LoadError,
    >)
        ensures
            r matches Ok(processed) && processed@ == data@,
    {
        match lod_level {
            LodLevel::High => Ok(data),
            LodLevel::Medium => Ok(data),
            LodLevel::Low => Ok(data),
        }
    }

    /// Post-processes a mesh. `High` passes through; `Medium` and `Low` are
    /// where a simplification of the geometry belongs, and pass through too.
    pub fn process_mesh_lod(&self, data: Vec<u8>, lod_level: LodLevel) -> (r: Result<
        Vec<u8>,
        LoadError,
    >)
        ensures
            r matches Ok(processed) && processed@ == data@,
    {
        match lod_level {
            LodLevel::High => Ok(data),
            LodLevel::Medium => Ok(data),
            LodLevel::Low => Ok(data),
        }
    }
}

} // verus!
