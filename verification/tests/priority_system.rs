use resource_streaming::asset_loader::LoadPriority;
use resource_streaming::priority_system::{
    PriorityCalculator, PriorityConfig, PriorityFactors, PriorityStats, StreamingPriority,
};

#[test]
fn score_thresholds_map_to_tiers() {
    // 0.05, 0.10 and 0.95 in millionths
    assert_eq!(PriorityCalculator::priority_score_to_enum(50_000), StreamingPriority::Invisible);
    assert_eq!(PriorityCalculator::priority_score_to_enum(100_000), StreamingPriority::VeryLow);
    assert_eq!(PriorityCalculator::priority_score_to_enum(950_000), StreamingPriority::Critical);
}

#[test]
fn every_threshold_is_inclusive_below_and_exclusive_above() {
    let cases = [
        (0u64, StreamingPriority::Invisible),
        (99_999, StreamingPriority::Invisible),
        (100_000, StreamingPriority::VeryLow),
        (199_999, StreamingPriority::VeryLow),
        (200_000, StreamingPriority::Low),
        (399_999, StreamingPriority::Low),
        (400_000, StreamingPriority::Medium),
        (599_999, StreamingPriority::Medium),
        (600_000, StreamingPriority::High),
        (799_999, StreamingPriority::High),
        (800_000, StreamingPriority::Critical),
        (1_000_000, StreamingPriority::Critical),
        (u64::MAX, StreamingPriority::Critical),
    ];
    for (score, tier) in cases {
        assert_eq!(PriorityCalculator::priority_score_to_enum(score), tier);
    }
}

#[test]
fn default_weights_sum_to_one() {
    let c = PriorityConfig::default();
    assert_eq!(c.distance_weight, 300);
    assert_eq!(c.view_angle_weight, 200);
    assert_eq!(c.screen_size_weight, 250);
    assert_eq!(c.movement_speed_weight, 100);
    assert_eq!(c.recency_weight, 100);
    assert_eq!(c.importance_weight, 50);
    assert_eq!(c.max_distance_threshold, 1_000_000);
    assert_eq!(c.min_priority_threshold, 100);
    let sum = c.distance_weight + c.view_angle_weight + c.screen_size_weight
        + c.movement_speed_weight + c.recency_weight + c.importance_weight;
    assert_eq!(sum, 1000);
    assert_eq!(PriorityCalculator::new().get_config().distance_weight, 300);
}

#[test]
fn default_factors() {
    let f = PriorityFactors::default();
    assert_eq!(f.distance_factor, 500);
    assert_eq!(f.view_angle_factor, 500);
    assert_eq!(f.screen_size_factor, 500);
    assert_eq!(f.movement_speed_factor, 0);
    assert_eq!(f.recency_factor, 500);
    assert_eq!(f.importance_factor, 500);
}

#[test]
fn weighted_score_of_the_default_factors() {
    let calc = PriorityCalculator::new();
    let f = PriorityFactors::default();
    // 0.5*0.3 + 0.5*0.2 + 0.5*0.25 + 1.0*0.1 + 0.5*0.1 + 0.5*0.05 = 0.55
    assert_eq!(calc.calculate_weighted_score(&f), 550_000);
    assert_eq!(calc.calculate_priority_advanced(&f), StreamingPriority::Medium);
}

#[test]
fn weighted_score_extremes() {
    let calc = PriorityCalculator::new();
    let best = PriorityFactors {
        distance_factor: 1000,
        view_angle_factor: 1000,
        screen_size_factor: 1000,
        movement_speed_factor: 0,
        recency_factor: 1000,
        importance_factor: 1000,
    };
    assert_eq!(calc.calculate_weighted_score(&best), 1_000_000);
    assert_eq!(calc.calculate_priority_advanced(&best), StreamingPriority::Critical);
    let worst = PriorityFactors {
        distance_factor: 0,
        view_angle_factor: 0,
        screen_size_factor: 0,
        movement_speed_factor: 1000,
        recency_factor: 0,
        importance_factor: 0,
    };
    assert_eq!(calc.calculate_weighted_score(&worst), 0);
    assert_eq!(calc.calculate_priority_advanced(&worst), StreamingPriority::Invisible);
    // a speed above one whole counts as one whole
    let racing = PriorityFactors { movement_speed_factor: 5000, ..best };
    assert_eq!(calc.calculate_weighted_score(&racing), 900_000);
    let huge = PriorityFactors {
        distance_factor: u16::MAX,
        view_angle_factor: u16::MAX,
        screen_size_factor: u16::MAX,
        movement_speed_factor: 0,
        recency_factor: u16::MAX,
        importance_factor: u16::MAX,
    };
    assert_eq!(calc.calculate_weighted_score(&huge), 65_535 * 900 + 100_000);
}

#[test]
fn faster_camera_lowers_the_score() {
    let calc = PriorityCalculator::new();
    let slow = PriorityFactors { movement_speed_factor: 100, ..PriorityFactors::default() };
    let fast = PriorityFactors { movement_speed_factor: 900, ..PriorityFactors::default() };
    assert_eq!(calc.calculate_weighted_score(&slow), 540_000);
    assert_eq!(calc.calculate_weighted_score(&fast), 460_000);
}

#[test]
fn distance_factor_falls_linearly() {
    let calc = PriorityCalculator::new();
    assert_eq!(calc.calculate_distance_factor(0), 1000);
    assert_eq!(calc.calculate_distance_factor(250_000), 750);
    assert_eq!(calc.calculate_distance_factor(500_000), 500);
    assert_eq!(calc.calculate_distance_factor(999_999), 0);
    assert_eq!(calc.calculate_distance_factor(999_000), 1);
    assert_eq!(calc.calculate_distance_factor(1_000_000), 0);
    assert_eq!(calc.calculate_distance_factor(u32::MAX), 0);
    let zero = PriorityCalculator::with_config(PriorityConfig {
        max_distance_threshold: 0,
        ..PriorityConfig::default()
    });
    assert_eq!(zero.calculate_distance_factor(0), 0);
}

#[test]
fn view_angle_factor_from_dot_product() {
    let calc = PriorityCalculator::new();
    let ahead = [0, 0, 1000];
    let behind = [0, 0, -1000];
    let side = [1000, 0, 0];
    assert_eq!(calc.calculate_view_angle_factor(&ahead, &ahead), 1000);
    assert_eq!(calc.calculate_view_angle_factor(&behind, &ahead), 0);
    assert_eq!(calc.calculate_view_angle_factor(&side, &ahead), 500);
    // dot = 0.6 * 1.0 = 0.6 -> 0.8
    assert_eq!(calc.calculate_view_angle_factor(&[0, 800, 600], &ahead), 800);
    // out of range products are limited to one
    assert_eq!(calc.calculate_view_angle_factor(&[i32::MAX; 3], &[i32::MAX; 3]), 1000);
    assert_eq!(calc.calculate_view_angle_factor(&[i32::MIN; 3], &[i32::MAX; 3]), 0);
}

#[test]
fn screen_size_factor_is_capped() {
    let calc = PriorityCalculator::new();
    assert_eq!(calc.calculate_screen_size_factor(0, 1, 1000), 1000);
    assert_eq!(calc.calculate_screen_size_factor(10, 250, 1000), 250);
    assert_eq!(calc.calculate_screen_size_factor(10, 2000, 1000), 1000);
    assert_eq!(calc.calculate_screen_size_factor(10, 1000, 1000), 1000);
    assert_eq!(calc.calculate_screen_size_factor(10, 1, 3), 333);
    assert_eq!(calc.calculate_screen_size_factor(10, 0, 0), 1000);
}

#[test]
fn movement_speed_factor_is_capped() {
    let calc = PriorityCalculator::new();
    assert_eq!(calc.calculate_movement_speed_factor(0, 10), 0);
    assert_eq!(calc.calculate_movement_speed_factor(5, 10), 500);
    assert_eq!(calc.calculate_movement_speed_factor(10, 10), 1000);
    assert_eq!(calc.calculate_movement_speed_factor(25, 10), 1000);
    assert_eq!(calc.calculate_movement_speed_factor(u32::MAX - 1, u32::MAX), 999);
    assert_eq!(calc.calculate_movement_speed_factor(1, 0), 1000);
}

#[test]
fn recency_factor_reaches_zero_at_five_minutes() {
    let calc = PriorityCalculator::new();
    let second: u128 = 1_000_000_000;
    assert_eq!(calc.calculate_recency_factor(0), 1000);
    assert_eq!(calc.calculate_recency_factor(150 * second), 500);
    assert_eq!(calc.calculate_recency_factor(75 * second), 750);
    assert_eq!(calc.calculate_recency_factor(300 * second - 1), 0);
    assert_eq!(calc.calculate_recency_factor(300 * second), 0);
    assert_eq!(calc.calculate_recency_factor(u128::MAX), 0);
}

#[test]
fn base_importance_by_path() {
    assert_eq!(PriorityCalculator::get_base_importance("textures/ui/button.png"), 1000);
    assert_eq!(PriorityCalculator::get_base_importance("hud/bar.png"), 1000);
    assert_eq!(PriorityCalculator::get_base_importance("models/character.gltf"), 900);
    assert_eq!(PriorityCalculator::get_base_importance("player.glb"), 900);
    assert_eq!(PriorityCalculator::get_base_importance("weapon/sword.glb"), 700);
    assert_eq!(PriorityCalculator::get_base_importance("item_01.png"), 700);
    assert_eq!(PriorityCalculator::get_base_importance("environment/rock.glb"), 500);
    assert_eq!(PriorityCalculator::get_base_importance("terrain.png"), 500);
    assert_eq!(PriorityCalculator::get_base_importance("particle/spark.png"), 300);
    assert_eq!(PriorityCalculator::get_base_importance("effect.wav"), 300);
    assert_eq!(PriorityCalculator::get_base_importance("mesh.gltf"), 500);
    assert_eq!(PriorityCalculator::get_base_importance(""), 500);
    // the first match decides: "build" holds "ui"
    assert_eq!(PriorityCalculator::get_base_importance("build/effect.wav"), 1000);
    assert_eq!(PriorityCalculator::get_base_importance("UI/button.png"), 500);
}

#[test]
fn simple_priority_from_distance_and_importance() {
    let calc = PriorityCalculator::new();
    let dir = [0, 0, 1000];
    // beyond the limit: invisible
    assert_eq!(calc.calculate_priority(1_000_001, &dir, "ui/a.png"), StreamingPriority::Invisible);
    // at distance 0 with a UI path: 1.0*0.3 + 1.0*0.05 = 0.35 -> Low
    assert_eq!(calc.calculate_priority(0, &dir, "ui/a.png"), StreamingPriority::Low);
    // 100 m, plain path: 0.9*0.3 + 0.5*0.05 = 0.295 -> Low
    assert_eq!(calc.calculate_priority(100_000, &dir, "mesh.gltf"), StreamingPriority::Low);
    // 500 m, plain path: 0.5*0.3 + 0.025 = 0.175 -> VeryLow
    assert_eq!(calc.calculate_priority(500_000, &dir, "mesh.gltf"), StreamingPriority::VeryLow);
    // at the limit, effect path: 0 + 0.3*0.05 = 0.015 -> Invisible
    assert_eq!(calc.calculate_priority(1_000_000, &dir, "effect.png"), StreamingPriority::Invisible);
    // 750 m, UI path: 0.25*0.3 + 0.05 = 0.125 -> VeryLow
    assert_eq!(calc.calculate_priority(750_000, &dir, "hud.png"), StreamingPriority::VeryLow);
}

#[test]
fn load_and_unload_decisions() {
    let calc = PriorityCalculator::new();
    assert!(!calc.should_load_resource(StreamingPriority::Invisible));
    assert!(!calc.should_load_resource(StreamingPriority::VeryLow));
    assert!(calc.should_load_resource(StreamingPriority::Low));
    assert!(calc.should_load_resource(StreamingPriority::Critical));

    assert!(calc.should_unload_resource(StreamingPriority::Low, 901));
    assert!(!calc.should_unload_resource(StreamingPriority::Medium, 901));
    assert!(!calc.should_unload_resource(StreamingPriority::Low, 900));
    assert!(calc.should_unload_resource(StreamingPriority::VeryLow, 900));
    assert!(calc.should_unload_resource(StreamingPriority::VeryLow, 701));
    assert!(!calc.should_unload_resource(StreamingPriority::VeryLow, 700));
    assert!(calc.should_unload_resource(StreamingPriority::Invisible, 700));
    assert!(calc.should_unload_resource(StreamingPriority::Invisible, 0));
    assert!(!calc.should_unload_resource(StreamingPriority::Critical, 1000));
}

#[test]
fn priority_conversions_and_order() {
    assert_eq!(StreamingPriority::from(LoadPriority::Low), StreamingPriority::Low);
    assert_eq!(StreamingPriority::from(LoadPriority::Medium), StreamingPriority::Medium);
    assert_eq!(StreamingPriority::from(LoadPriority::High), StreamingPriority::High);
    assert_eq!(StreamingPriority::from(LoadPriority::Critical), StreamingPriority::Critical);
    assert_eq!(u8::from(StreamingPriority::Invisible), 0);
    assert_eq!(u8::from(StreamingPriority::Critical), 5);
    assert_eq!(StreamingPriority::default(), StreamingPriority::Medium);
    assert!(StreamingPriority::Invisible < StreamingPriority::VeryLow);
    assert!(StreamingPriority::High < StreamingPriority::Critical);
    assert!(LoadPriority::Low < LoadPriority::Critical);
    assert_eq!(StreamingPriority::Low.max_with(StreamingPriority::High), StreamingPriority::High);
    assert_eq!(StreamingPriority::High.max_with(StreamingPriority::Low), StreamingPriority::High);
    assert_eq!(StreamingPriority::High.level(), 4);
}

#[test]
fn update_config_replaces_the_weights() {
    let mut calc = PriorityCalculator::new();
    calc.update_config(PriorityConfig { distance_weight: 1000, importance_weight: 0, ..PriorityConfig::default() });
    assert_eq!(calc.get_config().distance_weight, 1000);
    assert_eq!(calc.calculate_priority(0, &[0, 0, 0], "x"), StreamingPriority::Critical);
}

#[test]
fn priority_stats_count_and_share() {
    let mut stats = PriorityStats::default();
    assert_eq!(stats.get_priority_percentage(StreamingPriority::High), 0);
    assert_eq!(stats.get_active_resources(), 0);
    stats.add_resource(StreamingPriority::Invisible);
    stats.add_resource(StreamingPriority::VeryLow);
    stats.add_resource(StreamingPriority::Low);
    stats.add_resource(StreamingPriority::Medium);
    stats.add_resource(StreamingPriority::High);
    stats.add_resource(StreamingPriority::Critical);
    stats.add_resource(StreamingPriority::Critical);
    stats.add_resource(StreamingPriority::Invisible);
    assert_eq!(stats.invisible_count, 2);
    assert_eq!(stats.very_low_count, 1);
    assert_eq!(stats.low_count, 1);
    assert_eq!(stats.medium_count, 1);
    assert_eq!(stats.high_count, 1);
    assert_eq!(stats.critical_count, 2);
    assert_eq!(stats.total_resources, 8);
    assert_eq!(stats.get_active_resources(), 6);
    assert_eq!(stats.get_priority_percentage(StreamingPriority::Critical), 25);
    assert_eq!(stats.get_priority_percentage(StreamingPriority::High), 12);
}

#[test]
fn active_resources_never_underflow() {
    let stats = PriorityStats {
        invisible_count: 5,
        very_low_count: 0,
        low_count: 0,
        medium_count: 0,
        high_count: 0,
        critical_count: 0,
        total_resources: 3,
    };
    assert_eq!(stats.get_active_resources(), 0);
}
