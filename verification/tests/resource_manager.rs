use std::collections::hash_map::DefaultHasher;
use std::hash::{Hash, Hasher};

use resource_streaming::asset_loader::{AssetData, FileRead, LoadError, LoadPriority};
use resource_streaming::level_of_detail::LodLevel;
use resource_streaming::priority_system::StreamingPriority;
use resource_streaming::resource_manager::{
    initialize_streaming, LoadCompletion, ResourceState, ResourceStreamingManager, StreamingError,
    StreamingStats, WorkerAction,
};
use resource_streaming::{LoadRequest, StreamingConfig};

const SECOND: u128 = 1_000_000_000;

fn manager_with_cache(max_cache_size: u64) -> ResourceStreamingManager {
    ResourceStreamingManager::new(StreamingConfig { max_cache_size, ..StreamingConfig::default() })
}

fn manager() -> ResourceStreamingManager {
    manager_with_cache(1000)
}

fn std_hash(path: &str) -> u64 {
    let mut hasher = DefaultHasher::new();
    path.hash(&mut hasher);
    hasher.finish()
}

fn loaded(manager: &ResourceStreamingManager, path: &str, bytes: Vec<u8>) -> Result<AssetData, LoadError> {
    let request = LoadRequest {
        resource_id: path.to_string(),
        path: path.to_string(),
        priority: LoadPriority::Low,
        lod_level: LodLevel::Medium,
    };
    manager.asset_loader().load_asset(&request, path, FileRead::Loaded { bytes, created: 0 })
}

#[test]
fn default_streaming_config() {
    let c = StreamingConfig::default();
    assert_eq!(c.max_cache_size, 2 * 1024 * 1024 * 1024);
    assert_eq!(c.worker_threads, 4);
    assert_eq!(c.high_quality_distance, 50_000);
    assert_eq!(c.medium_quality_distance, 150_000);
    assert_eq!(c.low_quality_distance, 500_000);
    assert!(c.enable_predictive_loading);
    assert_eq!(c.asset_base_path, "assets");
}

#[test]
fn new_manager_is_idle() {
    let mut m = initialize_streaming(StreamingConfig::default());
    assert_eq!(m.tracked_resources(), 0);
    assert_eq!(m.pending_requests(), 0);
    assert!(m.is_worker_running());
    let stats = m.get_stats();
    assert_eq!(stats.total_resources, 0);
    assert_eq!(stats.loaded_resources, 0);
    assert_eq!(stats.loading_resources, 0);
    assert_eq!(stats.failed_resources, 0);
    assert_eq!(stats.memory_used, 0);
    assert_eq!(m.asset_loader().base_path(), "assets");
    assert!(matches!(m.poll(), WorkerAction::Wait));
    assert_eq!(m.get_resource_state(42), None);
}

#[test]
fn worker_starts_once() {
    let mut m = manager();
    assert_eq!(m.start_background_worker(), Err(StreamingError::WorkerAlreadyStarted));
    assert!(m.is_worker_running());
}

#[test]
fn same_path_gives_the_same_handle() {
    let mut m = manager();
    let first = m.request_resource("textures/rock.png", LoadPriority::Medium);
    let second = m.request_resource("textures/rock.png", LoadPriority::Medium);
    assert_eq!(first, second);
    let third = m.request_resource("textures/rock.png", LoadPriority::Critical);
    assert_eq!(first, third);
    let other = m.request_resource("textures/moss.png", LoadPriority::Medium);
    assert_ne!(first, other);
}

#[test]
fn handle_is_the_default_hash_of_the_path() {
    let mut m = manager();
    for path in ["mesh.gltf", "", "textures/rock.png", "caf\u{e9}/\u{1F600}.png"] {
        assert_eq!(m.generate_handle(path), std_hash(path));
        assert_eq!(m.request_resource(path, LoadPriority::Low), std_hash(path));
    }
    // two managers agree
    assert_eq!(manager().generate_handle("a/b"), manager().generate_handle("a/b"));
}

#[test]
fn second_request_raises_priority_and_queues_nothing() {
    let mut m = manager();
    let handle = m.request_resource("mesh.gltf", LoadPriority::Low);
    assert_eq!(m.pending_requests(), 1);
    assert_eq!(m.tracked_resources(), 1);
    let again = m.request_resource("mesh.gltf", LoadPriority::Critical);
    assert_eq!(handle, again);
    assert_eq!(m.tracked_resources(), 1);
    assert_eq!(m.pending_requests(), 1);
    assert_eq!(m.resource_priority("mesh.gltf"), Some(StreamingPriority::Critical));
    assert_eq!(m.get_resource_state(handle), Some(ResourceState::Loading));
    match m.poll() {
        WorkerAction::Load(request) => {
            assert_eq!(request.path, "mesh.gltf");
            assert_eq!(request.resource_id, "mesh.gltf");
            // the request carries the priority it was first made with
            assert_eq!(request.priority, LoadPriority::Low);
            assert_eq!(request.lod_level, LodLevel::Medium);
        }
        other => panic!("unexpected action {:?}", other),
    }
    assert!(matches!(m.poll(), WorkerAction::Wait));
}

#[test]
fn priority_only_rises() {
    let mut m = manager();
    m.request_resource_at("a.png", LoadPriority::High, 1);
    m.request_resource_at("a.png", LoadPriority::Critical, 2);
    m.request_resource_at("a.png", LoadPriority::Low, 3);
    m.request_resource_at("b.png", LoadPriority::Medium, 4);
    m.request_resource_at("b.png", LoadPriority::Low, 5);
    assert_eq!(m.tracked_resources(), 2);
    assert_eq!(m.pending_requests(), 2);
    assert_eq!(m.resource_priority("a.png"), Some(StreamingPriority::Critical));
    assert_eq!(m.resource_priority("b.png"), Some(StreamingPriority::Medium));
    assert_eq!(m.resource_priority("c.png"), None);
}

#[test]
fn requests_are_served_in_order() {
    let mut m = manager();
    m.request_resource("one.png", LoadPriority::Low);
    m.request_resource("two.png", LoadPriority::Critical);
    m.request_resource("three.png", LoadPriority::Medium);
    let mut seen = Vec::new();
    loop {
        match m.poll() {
            WorkerAction::Load(request) => seen.push(request.path),
            WorkerAction::Wait => break,
            other => panic!("unexpected action {:?}", other),
        }
    }
    assert_eq!(seen, vec!["one.png".to_string(), "two.png".to_string(), "three.png".to_string()]);
}

#[test]
fn requested_lod_follows_the_configured_distances() {
    // the assumed distance is 100 m
    let mut near = ResourceStreamingManager::new(StreamingConfig {
        high_quality_distance: 100_000,
        ..StreamingConfig::default()
    });
    near.request_resource("a", LoadPriority::Low);
    match near.poll() {
        WorkerAction::Load(request) => assert_eq!(request.lod_level, LodLevel::High),
        other => panic!("unexpected action {:?}", other),
    }
    let mut far = ResourceStreamingManager::new(StreamingConfig {
        high_quality_distance: 10_000,
        medium_quality_distance: 99_999,
        ..StreamingConfig::default()
    });
    far.request_resource("a", LoadPriority::Low);
    match far.poll() {
        WorkerAction::Load(request) => assert_eq!(request.lod_level, LodLevel::Low),
        other => panic!("unexpected action {:?}", other),
    }
}

#[test]
fn successful_load_marks_the_resource_loaded() {
    let mut m = manager();
    let handle = m.request_resource("mesh.gltf", LoadPriority::High);
    m.update(&[0, 0, 0], &[0, 0, 1000]);
    assert_eq!(m.get_stats().loading_resources, 1);
    let request = match m.poll() {
        WorkerAction::Load(request) => request,
        other => panic!("unexpected action {:?}", other),
    };
    let outcome = loaded(&m, "mesh.gltf", vec![1, 2, 3, 4]);
    assert_eq!(m.complete_load(&request, outcome), LoadCompletion::Cached);
    assert_eq!(m.get_resource_state(handle), Some(ResourceState::Loaded(LodLevel::Medium)));
    let stats = m.get_stats();
    assert_eq!(stats.loaded_resources, 1);
    assert_eq!(stats.loading_resources, 0);
    assert_eq!(stats.failed_resources, 0);
    m.perform_maintenance();
    assert_eq!(m.get_stats().memory_used, 4);
}

#[test]
fn failed_load_marks_the_resource_failed() {
    let mut m = manager();
    let handle = m.request_resource("missing/file.png", LoadPriority::Medium);
    m.update(&[0, 0, 0], &[0, 0, 1000]);
    let before = m.get_stats();
    assert_eq!(before.loading_resources, 1);
    assert_eq!(before.failed_resources, 0);
    let request = match m.poll() {
        WorkerAction::Load(request) => request,
        other => panic!("unexpected action {:?}", other),
    };
    assert_eq!(m.get_resource_state(handle), Some(ResourceState::Loading));
    let outcome = m.asset_loader().load_asset(&request, "assets/missing/file.png", FileRead::Missing);
    assert_eq!(outcome.as_ref().err(), Some(&LoadError::NotFound("assets/missing/file.png".to_string())));
    assert_eq!(m.complete_load(&request, outcome), LoadCompletion::Failed);
    assert_eq!(
        m.get_resource_state(handle),
        Some(ResourceState::Failed(
            "Error cargando missing/file.png: Archivo no encontrado: assets/missing/file.png".to_string()
        ))
    );
    let after = m.get_stats();
    assert_eq!(after.failed_resources, before.failed_resources + 1);
    assert_eq!(after.loading_resources, before.loading_resources - 1);
    assert_eq!(after.loaded_resources, 0);
    // a failed resource is not loaded again by a new request
    assert_eq!(m.request_resource("missing/file.png", LoadPriority::Critical), handle);
    assert_eq!(m.pending_requests(), 0);
    assert!(matches!(m.get_resource_state(handle), Some(ResourceState::Failed(_))));
}

#[test]
fn unreadable_file_reports_the_reason() {
    let mut m = manager();
    let handle = m.request_resource("locked.png", LoadPriority::Medium);
    let request = match m.poll() {
        WorkerAction::Load(request) => request,
        other => panic!("unexpected action {:?}", other),
    };
    let outcome = m.asset_loader().load_asset(&request, "assets/locked.png", FileRead::Failed("permission denied".to_string()));
    m.complete_load_at(&request, outcome, 5);
    assert_eq!(
        m.get_resource_state(handle),
        Some(ResourceState::Failed("Error cargando locked.png: permission denied".to_string()))
    );
    // the counter of loading resources does not go below zero
    let stats = m.get_stats();
    assert_eq!(stats.loading_resources, 0);
    assert_eq!(stats.failed_resources, 1);
}

#[test]
fn request_served_from_the_cache_needs_no_load() {
    let mut m = manager();
    m.request_resource_at("a.png", LoadPriority::Medium, 1);
    let request = match m.poll_at(2) {
        WorkerAction::Load(request) => request,
        other => panic!("unexpected action {:?}", other),
    };
    let outcome = loaded(&m, "a.png", vec![9; 10]);
    m.complete_load_at(&request, outcome, 3);
    // the registry forgets the resource after five idle minutes, the cache keeps what was reused
    assert!(m.process_load_request_at(&request, 4));
    m.cleanup_unused_resources_at(400 * SECOND);
    assert_eq!(m.tracked_resources(), 0);
    // cleanup of the registry took the payload out of the cache as well
    let handle = m.request_resource_at("a.png", LoadPriority::Medium, 401 * SECOND);
    assert!(matches!(m.poll_at(402 * SECOND), WorkerAction::Load(_)));
    assert_eq!(m.get_resource_state(handle), Some(ResourceState::Loading));
}

#[test]
fn cache_hit_marks_loaded_without_a_load() {
    let mut m = manager();
    m.request_resource_at("a.png", LoadPriority::Medium, 1);
    let request = match m.poll_at(2) {
        WorkerAction::Load(request) => request,
        other => panic!("unexpected action {:?}", other),
    };
    let outcome = loaded(&m, "a.png", vec![9; 10]);
    m.complete_load_at(&request, outcome, 3);
    assert_eq!(m.get_stats().loaded_resources, 1);
    // the same request comes again: it is served from the cache
    assert!(m.process_load_request(&request));
    assert_eq!(m.get_stats().loaded_resources, 2);
    assert_eq!(m.resource_state("a.png"), Some(ResourceState::Loaded(LodLevel::Medium)));
}

#[test]
fn oversized_payload_is_reported() {
    let mut m = manager_with_cache(8);
    let handle = m.request_resource("big.bin", LoadPriority::Low);
    let request = match m.poll() {
        WorkerAction::Load(request) => request,
        other => panic!("unexpected action {:?}", other),
    };
    let outcome = loaded(&m, "big.bin", vec![0; 9]);
    assert_eq!(m.complete_load(&request, outcome), LoadCompletion::TooLargeToCache);
    assert_eq!(m.get_resource_state(handle), Some(ResourceState::Loaded(LodLevel::Medium)));
    m.perform_maintenance();
    assert_eq!(m.get_stats().memory_used, 0);
    // not resident: a new poll of the same request would have to load again
    assert!(!m.process_load_request(&request));
}

#[test]
fn update_rescores_and_recounts() {
    let mut m = manager();
    m.request_resource_at("ui/button.png", LoadPriority::Critical, 1);
    m.request_resource_at("mesh.gltf", LoadPriority::Critical, 2);
    m.update_at(&[0, 0, 0], &[0, 0, 1000], 3);
    // at the assumed 100 m: 0.9*0.3 + importance*0.05
    assert_eq!(m.resource_priority("ui/button.png"), Some(StreamingPriority::Low));
    assert_eq!(m.resource_priority("mesh.gltf"), Some(StreamingPriority::Low));
    let stats = m.get_stats();
    assert_eq!(stats.total_resources, 2);
    assert_eq!(stats.loading_resources, 2);
    assert_eq!(stats.loaded_resources, 0);
    assert_eq!(stats.failed_resources, 0);
    assert_eq!(stats.memory_limit, 1000);
    assert_eq!(stats.memory_used, 0);
    assert_eq!(stats.cache_hit_rate, 0);
}

#[test]
fn update_keeps_everything_alive() {
    let mut m = manager();
    m.request_resource_at("a", LoadPriority::Low, 0);
    m.update_at(&[0, 0, 0], &[0, 0, 1000], 1000 * SECOND);
    assert_eq!(m.tracked_resources(), 1);
    m.cleanup_unused_resources_at(1300 * SECOND);
    assert_eq!(m.tracked_resources(), 1);
}

#[test]
fn cleanup_drops_resources_idle_for_more_than_five_minutes() {
    let mut m = manager();
    let old = m.request_resource_at("old.png", LoadPriority::Low, 0);
    let young = m.request_resource_at("young.png", LoadPriority::Low, 100 * SECOND);
    // 300 whole seconds are not more than 300
    m.cleanup_unused_resources_at(300 * SECOND + SECOND - 1);
    assert_eq!(m.tracked_resources(), 2);
    m.cleanup_unused_resources_at(301 * SECOND);
    assert_eq!(m.tracked_resources(), 1);
    assert_eq!(m.get_resource_state(old), None);
    assert_eq!(m.get_resource_state(young), Some(ResourceState::Loading));
    m.cleanup_unused_resources();
    assert!(m.tracked_resources() <= 1);
}

#[test]
fn clear_cache_and_garbage_collection() {
    let mut m = manager();
    m.request_resource_at("a.png", LoadPriority::Medium, 0);
    let request = match m.poll_at(0) {
        WorkerAction::Load(request) => request,
        other => panic!("unexpected action {:?}", other),
    };
    let outcome = loaded(&m, "a.png", vec![9; 10]);
    m.complete_load_at(&request, outcome, 0);
    m.force_garbage_collection_at(300 * SECOND);
    assert!(m.process_load_request_at(&request, 300 * SECOND));
    m.force_garbage_collection_at(301 * SECOND);
    // inserted once and never read back: cold
    assert!(!m.process_load_request_at(&request, 301 * SECOND));
    let outcome = loaded(&m, "a.png", vec![9; 10]);
    m.complete_load_at(&request, outcome, 302 * SECOND);
    m.force_garbage_collection();
    m.clear_cache();
    assert!(!m.process_load_request(&request));
    m.perform_maintenance_at(303 * SECOND);
    assert_eq!(m.get_stats().memory_used, 0);
}

#[test]
fn shutdown_stops_the_worker_and_fails_new_requests() {
    let mut m = manager();
    m.request_resource("queued.png", LoadPriority::Low);
    m.shutdown();
    assert!(!m.is_worker_running());
    assert!(matches!(m.poll(), WorkerAction::Stop));
    assert_eq!(m.pending_requests(), 1);
    let handle = m.request_resource("late.png", LoadPriority::Low);
    assert_eq!(m.pending_requests(), 1);
    assert_eq!(
        m.get_resource_state(handle),
        Some(ResourceState::Failed("Error enviando solicitud: sending on a disconnected channel".to_string()))
    );
}

#[test]
fn load_permits_are_bounded() {
    let mut m = ResourceStreamingManager::new(StreamingConfig { worker_threads: 2, ..StreamingConfig::default() });
    assert!(m.acquire_load_permit());
    assert!(m.acquire_load_permit());
    assert!(!m.acquire_load_permit());
    assert_eq!(m.asset_loader().current_loads(), 2);
    m.release_load_permit();
    assert!(m.acquire_load_permit());
    m.release_load_permit();
    m.release_load_permit();
    m.release_load_permit();
    assert_eq!(m.asset_loader().current_loads(), 0);
}

#[test]
fn default_stats_are_zero() {
    let stats = StreamingStats::default();
    assert_eq!(stats.total_resources, 0);
    assert_eq!(stats.cache_hit_rate, 0);
    assert_eq!(stats.memory_limit, 0);
}

#[test]
fn resource_state_duplicate() {
    let state = ResourceState::Failed("why".to_string());
    assert_eq!(state.duplicate(), state);
    assert_eq!(ResourceState::NotLoaded.duplicate(), ResourceState::NotLoaded);
}
