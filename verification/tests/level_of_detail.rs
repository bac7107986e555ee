use resource_streaming::level_of_detail::{LodConfig, LodLevel, LodManager, LodStats, ResourceType};

#[test]
fn mesh_thresholds_select_the_tier() {
    // high distance 30 m, medium distance 150 m
    let lod = LodManager::new(30_000, 150_000, 500_000);
    assert_eq!(lod.calculate_lod_level(20_000, &ResourceType::Mesh), LodLevel::High);
    assert_eq!(lod.calculate_lod_level(200_000, &ResourceType::Mesh), LodLevel::Low);
    assert_eq!(lod.calculate_lod_level(100_000, &ResourceType::Mesh), LodLevel::Medium);
}

#[test]
fn thresholds_are_inclusive() {
    let lod = LodManager::new(30_000, 150_000, 500_000);
    assert_eq!(lod.calculate_lod_level(30_000, &ResourceType::Mesh), LodLevel::High);
    assert_eq!(lod.calculate_lod_level(30_001, &ResourceType::Mesh), LodLevel::Medium);
    assert_eq!(lod.calculate_lod_level(150_000, &ResourceType::Mesh), LodLevel::Medium);
    assert_eq!(lod.calculate_lod_level(150_001, &ResourceType::Mesh), LodLevel::Low);
    assert_eq!(lod.calculate_lod_level(0, &ResourceType::Mesh), LodLevel::High);
    assert_eq!(lod.calculate_lod_level(u32::MAX, &ResourceType::Mesh), LodLevel::Low);
}

#[test]
fn texture_thresholds_are_sixty_percent_of_the_mesh_thresholds() {
    let lod = LodManager::new(50_000, 150_000, 500_000);
    let config = lod.get_config();
    assert_eq!(config.texture_high_distance, 30_000);
    assert_eq!(config.texture_medium_distance, 90_000);
    assert_eq!(config.mesh_high_distance, 50_000);
    assert_eq!(config.mesh_medium_distance, 150_000);
    assert!(config.enable_dynamic_lod);
    assert_eq!(lod.calculate_lod_level(30_000, &ResourceType::Texture), LodLevel::High);
    assert_eq!(lod.calculate_lod_level(30_001, &ResourceType::Texture), LodLevel::Medium);
    assert_eq!(lod.calculate_lod_level(90_001, &ResourceType::Texture), LodLevel::Low);
    // rounding down: 60% of 7 is 4
    assert_eq!(LodManager::new(7, 9, 0).get_config().texture_high_distance, 4);
    assert_eq!(LodManager::new(u32::MAX, u32::MAX, 0).get_config().texture_high_distance, 2_576_980_377);
}

#[test]
fn audio_thresholds_are_twice_the_mesh_thresholds() {
    let lod = LodManager::new(50_000, 150_000, 500_000);
    assert_eq!(lod.calculate_lod_level(100_000, &ResourceType::Audio), LodLevel::High);
    assert_eq!(lod.calculate_lod_level(100_001, &ResourceType::Audio), LodLevel::Medium);
    assert_eq!(lod.calculate_lod_level(300_000, &ResourceType::Audio), LodLevel::Medium);
    assert_eq!(lod.calculate_lod_level(300_001, &ResourceType::Audio), LodLevel::Low);
    let far = LodManager::new(u32::MAX, u32::MAX, 0);
    assert_eq!(far.calculate_lod_level(u32::MAX, &ResourceType::Audio), LodLevel::High);
}

#[test]
fn other_categories_use_the_mesh_thresholds() {
    let lod = LodManager::new(50_000, 150_000, 500_000);
    for kind in [ResourceType::Material, ResourceType::Scene, ResourceType::Other] {
        assert_eq!(lod.calculate_lod_level(50_000, &kind), LodLevel::High);
        assert_eq!(lod.calculate_lod_level(50_001, &kind), LodLevel::Medium);
        assert_eq!(lod.calculate_lod_level(150_001, &kind), LodLevel::Low);
    }
}

#[test]
fn static_lod_is_always_high() {
    let mut lod = LodManager::new(50_000, 150_000, 500_000);
    lod.update_config(LodConfig { enable_dynamic_lod: false, ..LodConfig::default() });
    assert_eq!(lod.calculate_lod_level(u32::MAX, &ResourceType::Mesh), LodLevel::High);
    assert!(!lod.get_config().enable_dynamic_lod);
}

#[test]
fn default_lod_config() {
    let config = LodConfig::default();
    assert_eq!(config.texture_high_distance, 30_000);
    assert_eq!(config.texture_medium_distance, 100_000);
    assert_eq!(config.mesh_high_distance, 50_000);
    assert_eq!(config.mesh_medium_distance, 150_000);
    assert!(config.enable_dynamic_lod);
}

#[test]
fn advanced_lod_lowers_for_small_or_slow() {
    let lod = LodManager::new(50_000, 150_000, 500_000);
    let mesh = ResourceType::Mesh;
    assert_eq!(lod.calculate_lod_advanced(10_000, &mesh, 500, 1000), LodLevel::High);
    // under 10% of the screen: one step down
    assert_eq!(lod.calculate_lod_advanced(10_000, &mesh, 99, 1000), LodLevel::Medium);
    assert_eq!(lod.calculate_lod_advanced(10_000, &mesh, 100, 1000), LodLevel::High);
    // medium goes down only under 5%
    assert_eq!(lod.calculate_lod_advanced(100_000, &mesh, 99, 1000), LodLevel::Medium);
    assert_eq!(lod.calculate_lod_advanced(100_000, &mesh, 49, 1000), LodLevel::Low);
    assert_eq!(lod.calculate_lod_advanced(100_000, &mesh, 50, 1000), LodLevel::Medium);
    // performance under 50%: one more step down
    assert_eq!(lod.calculate_lod_advanced(10_000, &mesh, 500, 499), LodLevel::Medium);
    assert_eq!(lod.calculate_lod_advanced(10_000, &mesh, 500, 500), LodLevel::High);
    assert_eq!(lod.calculate_lod_advanced(10_000, &mesh, 99, 499), LodLevel::Low);
    assert_eq!(lod.calculate_lod_advanced(200_000, &mesh, 0, 0), LodLevel::Low);
}

#[test]
fn transition_distances() {
    let lod = LodManager::new(50_000, 150_000, 500_000);
    let mesh = ResourceType::Mesh;
    assert_eq!(lod.get_transition_distance(&mesh, LodLevel::High, LodLevel::Medium), 50_000);
    assert_eq!(lod.get_transition_distance(&mesh, LodLevel::Medium, LodLevel::High), 50_000);
    assert_eq!(lod.get_transition_distance(&mesh, LodLevel::Medium, LodLevel::Low), 150_000);
    assert_eq!(lod.get_transition_distance(&mesh, LodLevel::Low, LodLevel::Medium), 150_000);
    assert_eq!(lod.get_transition_distance(&mesh, LodLevel::High, LodLevel::Low), 100_000);
    assert_eq!(lod.get_transition_distance(&mesh, LodLevel::Low, LodLevel::High), 100_000);
    assert_eq!(lod.get_transition_distance(&mesh, LodLevel::High, LodLevel::High), 0);
    assert_eq!(lod.get_transition_distance(&ResourceType::Audio, LodLevel::High, LodLevel::Medium), 100_000);
    assert_eq!(lod.get_transition_distance(&ResourceType::Texture, LodLevel::High, LodLevel::Low), 60_000);
}

#[test]
fn quality_factors() {
    let lod = LodManager::new(50_000, 150_000, 500_000);
    assert_eq!(lod.get_quality_factor(LodLevel::High), 1000);
    assert_eq!(lod.get_quality_factor(LodLevel::Medium), 500);
    assert_eq!(lod.get_quality_factor(LodLevel::Low), 250);
}

#[test]
fn smooth_transition_band_is_twenty_percent() {
    let lod = LodManager::new(50_000, 150_000, 500_000);
    let mesh = ResourceType::Mesh;
    assert!(lod.should_use_smooth_transition(50_000, &mesh));
    assert!(lod.should_use_smooth_transition(40_000, &mesh));
    assert!(!lod.should_use_smooth_transition(39_999, &mesh));
    assert!(lod.should_use_smooth_transition(60_000, &mesh));
    assert!(!lod.should_use_smooth_transition(60_001, &mesh));
    assert!(lod.should_use_smooth_transition(120_000, &mesh));
    assert!(!lod.should_use_smooth_transition(119_999, &mesh));
    assert!(lod.should_use_smooth_transition(180_000, &mesh));
    assert!(!lod.should_use_smooth_transition(180_001, &mesh));
    assert!(!lod.should_use_smooth_transition(90_000, &mesh));
    // audio blends around the plain mesh thresholds
    assert!(lod.should_use_smooth_transition(50_000, &ResourceType::Audio));
    assert!(!lod.should_use_smooth_transition(100_000, &ResourceType::Audio));
    // textures have their own
    assert!(lod.should_use_smooth_transition(30_000, &ResourceType::Texture));
    assert!(!lod.should_use_smooth_transition(50_000, &ResourceType::Texture));
}

#[test]
fn lod_level_conversions() {
    assert_eq!(LodLevel::from(0u8), LodLevel::Low);
    assert_eq!(LodLevel::from(1u8), LodLevel::Medium);
    assert_eq!(LodLevel::from(2u8), LodLevel::High);
    assert_eq!(LodLevel::from(200u8), LodLevel::High);
    assert_eq!(u8::from(LodLevel::Low), 0);
    assert_eq!(u8::from(LodLevel::Medium), 1);
    assert_eq!(u8::from(LodLevel::High), 2);
    assert_eq!(LodLevel::default(), LodLevel::Medium);
    assert_eq!(LodLevel::High.downgrade(), LodLevel::Medium);
    assert_eq!(LodLevel::Medium.downgrade(), LodLevel::Low);
    assert_eq!(LodLevel::Low.downgrade(), LodLevel::Low);
}

#[test]
fn resource_type_from_extension_ignores_case() {
    assert_eq!(ResourceType::from("gltf"), ResourceType::Mesh);
    assert_eq!(ResourceType::from("GLB"), ResourceType::Mesh);
    assert_eq!(ResourceType::from("Obj"), ResourceType::Mesh);
    assert_eq!(ResourceType::from("fbx"), ResourceType::Mesh);
    for ext in ["png", "JPG", "jpeg", "tga", "DDS", "hdr", "exr"] {
        assert_eq!(ResourceType::from(ext), ResourceType::Texture);
    }
    assert_eq!(ResourceType::from("mtl"), ResourceType::Material);
    assert_eq!(ResourceType::from("MAT"), ResourceType::Material);
    for ext in ["wav", "Mp3", "ogg"] {
        assert_eq!(ResourceType::from(ext), ResourceType::Audio);
    }
    assert_eq!(ResourceType::from("dmoon"), ResourceType::Scene);
    assert_eq!(ResourceType::from("SCENE"), ResourceType::Scene);
    assert_eq!(ResourceType::from("txt"), ResourceType::Other);
    assert_eq!(ResourceType::from(""), ResourceType::Other);
    assert_eq!(ResourceType::from(".png"), ResourceType::Other);
}

#[test]
fn resource_type_from_lowercase_is_case_sensitive() {
    assert_eq!(ResourceType::from_lowercase("png"), ResourceType::Texture);
    assert_eq!(ResourceType::from_lowercase("PNG"), ResourceType::Other);
}

#[test]
fn lod_stats_count_and_share() {
    let mut stats = LodStats::default();
    assert_eq!(stats.get_distribution_percentage(LodLevel::High), 0);
    assert_eq!(stats.estimate_memory_savings(), 0);
    stats.add_resource(LodLevel::High);
    stats.add_resource(LodLevel::Medium);
    stats.add_resource(LodLevel::Low);
    stats.add_resource(LodLevel::Low);
    assert_eq!(stats.high_lod_count, 1);
    assert_eq!(stats.medium_lod_count, 1);
    assert_eq!(stats.low_lod_count, 2);
    assert_eq!(stats.total_resources, 4);
    assert_eq!(stats.memory_saved_bytes, 0);
    assert_eq!(stats.get_distribution_percentage(LodLevel::High), 25);
    assert_eq!(stats.get_distribution_percentage(LodLevel::Low), 50);
    // (50 * 1 + 75 * 2) / 4 = 50
    assert_eq!(stats.estimate_memory_savings(), 50);
    stats.add_resource(LodLevel::High);
    stats.add_resource(LodLevel::High);
    // 1 of 6 is 16.67 percent, rounded down
    assert_eq!(stats.get_distribution_percentage(LodLevel::Medium), 16);
    // 200 / 6 = 33.3
    assert_eq!(stats.estimate_memory_savings(), 33);
}

#[test]
fn lod_stats_counters_stop_at_the_top() {
    let mut stats = LodStats {
        high_lod_count: u32::MAX,
        medium_lod_count: 0,
        low_lod_count: 0,
        total_resources: u32::MAX,
        memory_saved_bytes: 0,
    };
    stats.add_resource(LodLevel::High);
    assert_eq!(stats.high_lod_count, u32::MAX);
    assert_eq!(stats.total_resources, u32::MAX);
    assert_eq!(stats.get_distribution_percentage(LodLevel::High), 100);
}
