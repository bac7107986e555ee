use resource_streaming::asset_loader::{
    AssetData, AssetLoader, AssetMetadata, AssetType, FileRead, LoadError, LoadPriority, LoadRequest,
};
use resource_streaming::level_of_detail::LodLevel;
use resource_streaming::text::{chars_of, file_extension, find_last};

fn loader() -> AssetLoader {
    AssetLoader::new(2, "assets")
}

fn request(path: &str, lod_level: LodLevel) -> LoadRequest {
    LoadRequest {
        resource_id: path.to_string(),
        path: path.to_string(),
        priority: LoadPriority::Medium,
        lod_level,
    }
}

#[test]
fn extension_is_the_text_after_the_last_dot_of_the_file_name() {
    assert_eq!(file_extension("a/b/mesh.gltf"), Some("gltf"));
    assert_eq!(file_extension("mesh.tar.gz"), Some("gz"));
    assert_eq!(file_extension("dir.d/file"), None);
    assert_eq!(file_extension("noext"), None);
    assert_eq!(file_extension(""), None);
    assert_eq!(file_extension(".hidden"), None);
    assert_eq!(file_extension("a/.hidden"), None);
    assert_eq!(file_extension(".hidden.png"), Some("png"));
    assert_eq!(file_extension("trailing."), Some(""));
    assert_eq!(file_extension(".."), None);
    assert_eq!(file_extension("a/.."), None);
    assert_eq!(file_extension("a/"), None);
    assert_eq!(file_extension("caf\u{e9}.\u{fc}ber"), Some("\u{fc}ber"));
}

#[test]
fn chars_and_last_index() {
    assert_eq!(chars_of("a\u{e9}b"), vec!['a', '\u{e9}', 'b']);
    assert_eq!(chars_of(""), Vec::<char>::new());
    let chars = chars_of("a/b/c");
    assert_eq!(find_last(&chars, '/'), Some(3));
    assert_eq!(find_last(&chars, 'a'), Some(0));
    assert_eq!(find_last(&chars, 'x'), None);
}

#[test]
fn asset_type_by_extension() {
    let l = loader();
    for path in ["a.gltf", "a.glb", "dir/a.obj", "a.fbx"] {
        assert_eq!(l.detect_asset_type(path), AssetType::Mesh);
    }
    for path in ["a.png", "a.jpg", "a.jpeg", "a.tga", "a.dds", "a.hdr", "a.exr"] {
        assert_eq!(l.detect_asset_type(path), AssetType::Texture);
    }
    assert_eq!(l.detect_asset_type("a.mtl"), AssetType::Material);
    assert_eq!(l.detect_asset_type("a.mat"), AssetType::Material);
    for path in ["a.wav", "a.mp3", "a.ogg"] {
        assert_eq!(l.detect_asset_type(path), AssetType::Audio);
    }
    assert_eq!(l.detect_asset_type("level.dmoon"), AssetType::Scene);
    assert_eq!(l.detect_asset_type("level.scene"), AssetType::Scene);
    assert_eq!(l.detect_asset_type("readme.txt"), AssetType::Unknown);
    assert_eq!(l.detect_asset_type("noext"), AssetType::Unknown);
    // extensions are compared as written
    assert_eq!(l.detect_asset_type("a.PNG"), AssetType::Unknown);
    assert_eq!(l.detect_asset_type("png"), AssetType::Unknown);
}

#[test]
fn format_string_is_the_upper_case_extension() {
    let l = loader();
    assert_eq!(l.get_format_string("a/b.gltf"), "GLTF");
    assert_eq!(l.get_format_string("a/b.Png"), "PNG");
    assert_eq!(l.get_format_string("a/b"), "UNKNOWN");
    assert_eq!(l.get_format_string("a/b."), "");
}

#[test]
fn load_asset_builds_the_asset_from_the_bytes() {
    let l = loader();
    let r = request("models/ship.glb", LodLevel::Low);
    let asset = l
        .load_asset(&r, "assets/models/ship.glb", FileRead::Loaded { bytes: vec![1, 2, 3], created: 77 })
        .expect("bytes were read");
    assert_eq!(asset.asset_type, AssetType::Mesh);
    assert_eq!(asset.data, vec![1, 2, 3]);
    assert_eq!(asset.len(), 3);
    assert!(!asset.is_empty());
    assert_eq!(asset.metadata.original_size, 3);
    assert_eq!(asset.metadata.compressed_size, 3);
    assert_eq!(asset.metadata.format, "GLB");
    assert_eq!(asset.metadata.creation_time, 77);
    assert_eq!(asset.metadata.lod_level, LodLevel::Low);
}

#[test]
fn load_asset_of_an_empty_file() {
    let l = loader();
    let r = request("empty", LodLevel::High);
    let asset = l.load_asset(&r, "assets/empty", FileRead::Loaded { bytes: Vec::new(), created: 0 }).unwrap();
    assert_eq!(asset.asset_type, AssetType::Unknown);
    assert!(asset.is_empty());
    assert_eq!(asset.len(), 0);
    assert_eq!(asset.metadata.format, "UNKNOWN");
}

#[test]
fn load_asset_errors() {
    let l = loader();
    let r = request("x.png", LodLevel::High);
    let missing = l.load_asset(&r, "assets/x.png", FileRead::Missing).unwrap_err();
    assert_eq!(missing, LoadError::NotFound("assets/x.png".to_string()));
    assert_eq!(missing.message(), "Archivo no encontrado: assets/x.png");
    let failed = l.load_asset(&r, "assets/x.png", FileRead::Failed("disk on fire".to_string())).unwrap_err();
    assert_eq!(failed, LoadError::Io("disk on fire".to_string()));
    assert_eq!(failed.message(), "disk on fire");
}

#[test]
fn post_processing_passes_bytes_through() {
    let l = loader();
    for lod in [LodLevel::High, LodLevel::Medium, LodLevel::Low] {
        assert_eq!(l.process_texture_lod(vec![1, 2], lod), Ok(vec![1, 2]));
        assert_eq!(l.process_mesh_lod(vec![3], lod), Ok(vec![3]));
        for kind in [AssetType::Mesh, AssetType::Texture, AssetType::Audio, AssetType::Unknown] {
            assert_eq!(l.process_lod_data(vec![4, 5, 6], &kind, lod), Ok(vec![4, 5, 6]));
        }
    }
}

#[test]
fn permits_bound_the_loads_in_flight() {
    let mut l = loader();
    assert_eq!(l.base_path(), "assets");
    assert_eq!(l.current_loads(), 0);
    assert!(l.try_acquire());
    assert!(l.try_acquire());
    assert!(!l.try_acquire());
    assert_eq!(l.current_loads(), 2);
    l.release();
    assert_eq!(l.current_loads(), 1);
    assert!(l.try_acquire());
    l.release();
    l.release();
    l.release();
    assert_eq!(l.current_loads(), 0);
    let mut none = AssetLoader::new(0, "assets");
    assert!(!none.try_acquire());
}

#[test]
fn matching_files_contain_the_pattern() {
    let l = loader();
    let entries = vec![
        "rock_albedo.png".to_string(),
        "rock_normal.png".to_string(),
        "tree.glb".to_string(),
        "bedrock.txt".to_string(),
    ];
    assert_eq!(
        l.find_matching_files("rock", &entries),
        vec!["rock_albedo.png".to_string(), "rock_normal.png".to_string(), "bedrock.txt".to_string()]
    );
    assert_eq!(l.find_matching_files(".glb", &entries), vec!["tree.glb".to_string()]);
    assert_eq!(l.find_matching_files("", &entries), entries);
    assert_eq!(l.find_matching_files("zzz", &entries), Vec::<String>::new());
}

#[test]
fn preload_requests_are_low_priority_and_low_quality() {
    let l = loader();
    let files = vec!["a.png".to_string(), "b.glb".to_string()];
    let requests = l.preload_requests(&files);
    assert_eq!(requests.len(), 2);
    for (request, file) in requests.iter().zip(files.iter()) {
        assert_eq!(&request.resource_id, file);
        assert_eq!(&request.path, file);
        assert_eq!(request.priority, LoadPriority::Low);
        assert_eq!(request.lod_level, LodLevel::Low);
    }
    assert!(l.preload_requests(&Vec::new()).is_empty());
}

#[test]
fn preload_keeps_the_successful_loads() {
    let l = loader();
    let r = request("a.png", LodLevel::Low);
    let results = vec![
        l.load_asset(&r, "assets/a.png", FileRead::Loaded { bytes: vec![1], created: 0 }),
        l.load_asset(&r, "assets/b.png", FileRead::Missing),
        l.load_asset(&r, "assets/c.glb", FileRead::Loaded { bytes: vec![2, 3], created: 0 }),
        l.load_asset(&r, "assets/d.png", FileRead::Failed("no".to_string())),
    ];
    let assets: Vec<AssetData> = l.preload_assets(results);
    assert_eq!(assets.len(), 2);
    assert_eq!(assets[0].data, vec![1]);
    assert_eq!(assets[0].asset_type, AssetType::Texture);
    assert_eq!(assets[1].data, vec![2, 3]);
    assert_eq!(assets[1].asset_type, AssetType::Mesh);
    assert!(l.preload_assets(Vec::new()).is_empty());
}

#[test]
fn default_metadata() {
    let m = AssetMetadata::default();
    assert_eq!(m.original_size, 0);
    assert_eq!(m.compressed_size, 0);
    assert_eq!(m.format, "");
    assert_eq!(m.creation_time, 0);
    assert_eq!(m.lod_level, LodLevel::Medium);
}

#[test]
fn load_request_duplicate() {
    let r = request("a/b.png", LodLevel::High);
    let d = r.duplicate();
    assert_eq!(d.resource_id, r.resource_id);
    assert_eq!(d.path, r.path);
    assert_eq!(d.priority, r.priority);
    assert_eq!(d.lod_level, r.lod_level);
}

#[test]
fn a_path_that_ends_in_a_slash_has_no_extension() {
    let l = loader();
    assert_eq!(file_extension("a/b.png/"), None);
    assert_eq!(file_extension("a/b.png/."), None);
    assert_eq!(file_extension("/"), None);
    assert_eq!(l.detect_asset_type("a/b.png/"), AssetType::Unknown);
    assert_eq!(l.detect_asset_type("a/b.png/."), AssetType::Unknown);
    assert_eq!(l.detect_asset_type("a/b.png"), AssetType::Texture);
    assert_eq!(l.get_format_string("a/b.png/"), "UNKNOWN");
    assert_eq!(l.get_format_string("a/b.png"), "PNG");
}
