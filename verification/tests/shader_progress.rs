use resource_streaming::shader_progress::{
    compilation_note, is_compilation_active, is_compilation_or_heavy_work_active,
    popup_status_text, should_show_compilation_popup, start_real_compilation,
    update_pipeline_compilation_frame, CompilationNote, ShaderCompilationProgress,
    ShaderProgressTracker,
};

#[test]
fn test_translucent_shader_compilation() {
    let mut tracker = ShaderProgressTracker::new();
    start_real_compilation(&mut tracker);

    let shaders = vec!["/shaders/translucent_vs.hlsl", "/shaders/translucent_ps.hlsl"];

    println!("Attempting to register translucent pipeline...");

    for shader in shaders.iter() {
        tracker.register_shader(shader);
    }
    for shader in shaders.iter() {
        tracker.start_compiling_shader(shader);
        tracker.finish_compiling_shader(shader, true);
    }
    update_pipeline_compilation_frame(&mut tracker, 1);

    let handle = tracker.get_progress().completed_shaders;
    println!("Pipeline registered successfully: {:?}", handle);

    assert_eq!(tracker.get_progress().total_shaders, 2);
    assert_eq!(handle, 2);
    assert!(tracker.get_progress().failed_shaders.is_empty());
}

#[test]
fn fresh_progress() {
    let p = ShaderCompilationProgress::new();
    assert_eq!(p.total_shaders, 0);
    assert_eq!(p.completed_shaders, 0);
    assert_eq!(p.current_shader, None);
    assert!(!p.is_complete);
    assert!(p.failed_shaders.is_empty());
    assert!(!p.is_simulation_mode);
    assert_eq!(p.progress_percentage(), 100);
    assert_eq!(p.status_text(), "Preparing shader compilation... (0/0)");
}

#[test]
fn progress_percentage_rounds_down() {
    let mut p = ShaderCompilationProgress::new();
    p.total_shaders = 3;
    p.completed_shaders = 1;
    assert_eq!(p.progress_percentage(), 33);
    p.completed_shaders = 2;
    assert_eq!(p.progress_percentage(), 66);
    p.completed_shaders = 3;
    assert_eq!(p.progress_percentage(), 100);
    p.completed_shaders = 6;
    assert_eq!(p.progress_percentage(), 200);
}

#[test]
fn status_text_forms() {
    let mut p = ShaderCompilationProgress::new();
    p.total_shaders = 120;
    p.completed_shaders = 7;
    assert_eq!(p.status_text(), "Preparing shader compilation... (7/120)");
    p.current_shader = Some("/shaders/sky.hlsl".to_string());
    assert_eq!(p.status_text(), "Compiling: /shaders/sky.hlsl (7/120)");
    p.is_complete = true;
    assert_eq!(p.status_text(), "Shader compilation complete! (7/120)");
    p.is_simulation_mode = true;
    assert_eq!(
        p.status_text(),
        "Simulation complete! Real shader compilation may continue... (7/120)"
    );
    p.completed_shaders = 1_000_000;
    p.total_shaders = 10;
    p.is_complete = false;
    p.current_shader = None;
    assert_eq!(p.status_text(), "Preparing shader compilation... (1000000/10)");
    let copy = p.duplicate();
    assert_eq!(copy.status_text(), p.status_text());
}

#[test]
fn registering_counts_distinct_shaders() {
    let mut t = ShaderProgressTracker::new();
    t.register_shader("a.hlsl");
    t.register_shader("b.hlsl");
    t.register_shader("a.hlsl");
    assert_eq!(t.get_progress().total_shaders, 2);
    assert!(is_compilation_active(&t));
    assert!(is_compilation_or_heavy_work_active(&t));
    assert!(!t.is_compilation_complete());
}

#[test]
fn finishing_all_shaders_completes_the_run() {
    let mut t = ShaderProgressTracker::new();
    t.register_shader("a.hlsl");
    t.register_shader("b.hlsl");
    t.start_compiling_shader("a.hlsl");
    assert_eq!(t.get_progress().current_shader, Some("a.hlsl".to_string()));
    t.finish_compiling_shader("a.hlsl", true);
    assert_eq!(t.get_progress().current_shader, None);
    assert_eq!(t.get_progress().completed_shaders, 1);
    assert!(!t.is_compilation_complete());
    t.finish_compiling_shader("b.hlsl", false);
    assert_eq!(t.get_progress().completed_shaders, 1);
    assert_eq!(t.get_progress().failed_shaders, vec!["b.hlsl".to_string()]);
    assert!(t.is_compilation_complete());
    assert!(!is_compilation_active(&t));
    assert!(!is_compilation_or_heavy_work_active(&t));
    assert_eq!(t.get_progress().progress_percentage(), 50);
}

#[test]
fn active_pipeline_compilation_holds_completion_back() {
    let mut t = ShaderProgressTracker::new();
    t.register_shader("a.hlsl");
    t.set_pipeline_compilation_active(true);
    assert!(t.is_pipeline_compilation_active());
    t.finish_compiling_shader("a.hlsl", true);
    assert!(!t.is_compilation_complete());
    assert!(is_compilation_or_heavy_work_active(&t));
    t.set_pipeline_compilation_active(false);
    assert!(t.is_compilation_complete());
    assert!(!t.is_pipeline_compilation_active());
}

#[test]
fn pipeline_compilation_ends_simulation_mode() {
    let mut t = ShaderProgressTracker::new();
    t.set_simulation_mode(true);
    assert!(t.get_progress().is_simulation_mode);
    t.set_pipeline_compilation_active(false);
    assert!(t.get_progress().is_simulation_mode);
    t.set_pipeline_compilation_active(true);
    assert!(!t.get_progress().is_simulation_mode);
}

#[test]
fn cooldown_of_sixty_quiet_frames_ends_pipeline_compilation() {
    let mut t = ShaderProgressTracker::new();
    t.set_pipeline_compilation_active(true);
    t.update_frame(3);
    for _ in 0..59 {
        t.update_frame(0);
    }
    assert!(t.is_pipeline_compilation_active());
    assert!(!t.is_compilation_complete());
    t.update_frame(0);
    assert!(!t.is_pipeline_compilation_active());
    // nothing was registered, so everything is processed
    assert!(t.is_compilation_complete());
}

#[test]
fn compiled_pipelines_restart_the_cooldown() {
    let mut t = ShaderProgressTracker::new();
    t.set_pipeline_compilation_active(true);
    for _ in 0..59 {
        t.update_frame(0);
    }
    t.update_frame(1);
    for _ in 0..59 {
        t.update_frame(0);
    }
    assert!(t.is_pipeline_compilation_active());
    t.update_frame(0);
    assert!(!t.is_pipeline_compilation_active());
}

#[test]
fn quiet_frames_do_not_count_while_inactive() {
    let mut t = ShaderProgressTracker::new();
    for _ in 0..100 {
        t.update_frame(0);
    }
    t.update_frame(51);
    assert!(!t.should_force_finish_compilation());
    t.set_pipeline_compilation_active(true);
    for _ in 0..30 {
        t.update_frame(0);
    }
    assert!(!t.should_force_finish_compilation());
    t.update_frame(0);
    assert!(t.should_force_finish_compilation());
}

#[test]
fn force_finish_needs_more_than_fifty_pipelines() {
    let mut t = ShaderProgressTracker::new();
    t.set_pipeline_compilation_active(true);
    t.update_frame(50);
    for _ in 0..40 {
        t.update_frame(0);
    }
    assert!(!t.should_force_finish_compilation());
    t.update_frame(u32::MAX);
    t.update_frame(u32::MAX);
    for _ in 0..31 {
        t.update_frame(0);
    }
    assert!(t.should_force_finish_compilation());
}

#[test]
fn reset_for_real_compilation_clears_everything() {
    let mut t = ShaderProgressTracker::new();
    t.set_simulation_mode(true);
    t.register_shader("a.hlsl");
    t.finish_compiling_shader("a.hlsl", false);
    t.update_frame(9);
    t.reset_for_real_compilation();
    assert!(t.is_pipeline_compilation_active());
    assert!(!t.is_compilation_complete());
    assert!(!t.should_force_finish_compilation());
    let p = t.get_progress();
    assert_eq!(p.total_shaders, 0);
    assert_eq!(p.completed_shaders, 0);
    assert!(p.failed_shaders.is_empty());
    assert!(!p.is_simulation_mode);
    assert!(!is_compilation_active(&t));
    assert!(!is_compilation_or_heavy_work_active(&t));
    t.register_shader("b.hlsl");
    assert!(is_compilation_or_heavy_work_active(&t));
}

#[test]
fn finishing_an_unregistered_shader_still_counts() {
    let mut t = ShaderProgressTracker::new();
    t.finish_compiling_shader("ghost.hlsl", true);
    assert_eq!(t.get_progress().completed_shaders, 1);
    assert_eq!(t.get_progress().total_shaders, 0);
    assert!(t.is_compilation_complete());
}

#[test]
fn progress_window() {
    let mut t = ShaderProgressTracker::new();
    assert!(!should_show_compilation_popup(&t));
    assert_eq!(popup_status_text(&t), "Waiting for shader compilation to start...");
    assert_eq!(compilation_note(&t), CompilationNote::Nothing);
    t.set_pipeline_compilation_active(true);
    assert!(should_show_compilation_popup(&t));
    assert_eq!(popup_status_text(&t), "Preparing shader compilation...");
    t.register_shader("a.hlsl");
    assert!(should_show_compilation_popup(&t));
    assert_eq!(popup_status_text(&t), "Preparing shader compilation... (0/1)");
    assert_eq!(compilation_note(&t), CompilationNote::RealRun);
    t.start_compiling_shader("a.hlsl");
    assert_eq!(popup_status_text(&t), "Compiling: a.hlsl (0/1)");
    t.finish_compiling_shader("a.hlsl", true);
    // all shaders are done, pipelines are still being compiled
    assert!(should_show_compilation_popup(&t));
    t.set_pipeline_compilation_active(false);
    assert!(!should_show_compilation_popup(&t));
    assert_eq!(popup_status_text(&t), "Shader compilation complete! (1/1)");
    t.set_simulation_mode(true);
    assert_eq!(compilation_note(&t), CompilationNote::Simulation);
}
