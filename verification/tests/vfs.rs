use resource_streaming::vfs::{mount_point, mounted_directory, to_vfs_path, MOUNT_COUNT};

fn roots() -> Vec<Option<String>> {
    vec![
        Some("/home/user/project/assets/meshes".to_string()),
        Some("/home/user/project/assets/images".to_string()),
        Some("/home/user/project/assets/shaders".to_string()),
        Some("/home/user/project/assets/rust-shaders-compiled".to_string()),
        Some("/home/user/project/cache".to_string()),
    ]
}

#[test]
fn mount_table() {
    assert_eq!(MOUNT_COUNT, 5);
    assert_eq!(mount_point(0), "/meshes");
    assert_eq!(mount_point(1), "/images");
    assert_eq!(mount_point(2), "/shaders");
    assert_eq!(mount_point(3), "/rust-shaders-compiled");
    assert_eq!(mount_point(4), "/cache");
    assert_eq!(mounted_directory(0), "assets/meshes");
    assert_eq!(mounted_directory(1), "assets/images");
    assert_eq!(mounted_directory(2), "assets/shaders");
    assert_eq!(mounted_directory(3), "assets/rust-shaders-compiled");
    assert_eq!(mounted_directory(4), "cache");
}

#[test]
fn path_under_a_mounted_directory() {
    assert_eq!(
        to_vfs_path(Some("/home/user/project/assets/meshes/floor/textures/foo.png"), &roots()),
        Some("/meshes/floor/textures/foo.png".to_string())
    );
    assert_eq!(
        to_vfs_path(Some("/home/user/project/assets/shaders/sky.hlsl"), &roots()),
        Some("/shaders/sky.hlsl".to_string())
    );
    assert_eq!(
        to_vfs_path(Some("/home/user/project/cache/a/b"), &roots()),
        Some("/cache/a/b".to_string())
    );
    assert_eq!(
        to_vfs_path(Some("/home/user/project/assets/meshes"), &roots()),
        Some("/meshes/".to_string())
    );
}

#[test]
fn path_outside_every_mounted_directory() {
    assert_eq!(to_vfs_path(Some("/home/user/project/src/main.rs"), &roots()), None);
    assert_eq!(to_vfs_path(Some(""), &roots()), None);
    // a name that only begins like a mounted directory is not under it
    assert_eq!(to_vfs_path(Some("/home/user/project/assets/meshes2/a.glb"), &roots()), None);
    assert_eq!(to_vfs_path(Some("/home/user/project/cachex"), &roots()), None);
}

#[test]
fn missing_canonical_forms_end_the_search() {
    assert_eq!(to_vfs_path(None, &roots()), None);
    let mut partial = roots();
    partial[1] = None;
    assert_eq!(
        to_vfs_path(Some("/home/user/project/assets/meshes/a.glb"), &partial),
        Some("/meshes/a.glb".to_string())
    );
    // the directory of /images has to be looked at before that of /shaders
    assert_eq!(to_vfs_path(Some("/home/user/project/assets/shaders/sky.hlsl"), &partial), None);
    assert_eq!(to_vfs_path(Some("/home/user/project/assets/meshes/a.glb"), &Vec::new()), None);
}

#[test]
fn root_with_a_trailing_slash() {
    let roots = vec![Some("/".to_string())];
    assert_eq!(to_vfs_path(Some("/a/b"), &roots), Some("/meshes/a/b".to_string()));
    let roots = vec![Some("/data/".to_string())];
    assert_eq!(to_vfs_path(Some("/data/a"), &roots), Some("/meshes/a".to_string()));
}
