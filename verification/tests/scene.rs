use resource_streaming::scene::{
    extract_gltf_path_from_dmoon, get_element_icon, dropped_file_action, mesh_path_of_line,
    DropAction, ElementIcon, MeshSource,
};
use resource_streaming::shader_compiler::{
    shader_source_text, compiler_arguments, get_cs_local_size_from_spirv, module_is_admitted,
    include_file_path, local_size_from_instructions, ray_tracing_source_kind, resolve_path,
    shader_name, shader_source_kind, target_profile, LocalSizeError, ShaderError,
    ShaderSourceKind, SpirvInstruction, OP_EXECUTION_MODE, RAY_TRACING_TARGET_PROFILE,
};
use resource_streaming::shader_progress::{
    is_shader_compilation_active, monitor_simulation, simulate_shader_compilation,
    simulated_compilation_millis, simulation_shaders, ShaderProgressTracker,
};
use resource_streaming::text::file_stem;

#[test]
fn dropped_files_by_extension() {
    assert_eq!(dropped_file_action("sky.hdr"), DropAction::LoadIbl);
    assert_eq!(dropped_file_action("/home/me/sky.exr"), DropAction::LoadIbl);
    assert_eq!(dropped_file_action("level.ron"), DropAction::LoadScene);
    assert_eq!(dropped_file_action("level.dmoon"), DropAction::LoadScene);
    assert_eq!(dropped_file_action("ship.gltf"), DropAction::AddMesh);
    assert_eq!(dropped_file_action("ship.glb"), DropAction::AddMesh);
    assert_eq!(dropped_file_action("ship.GLB"), DropAction::Ignore);
    assert_eq!(dropped_file_action("notes.txt"), DropAction::Ignore);
    assert_eq!(dropped_file_action("glb"), DropAction::Ignore);
    assert_eq!(dropped_file_action(""), DropAction::Ignore);
}

#[test]
fn element_icons() {
    let file = |path: &str| MeshSource::File(path.to_string());
    assert_eq!(get_element_icon(true, &file("a.dmoon")), ElementIcon::ObjectGroup);
    assert_eq!(get_element_icon(true, &MeshSource::Cache), ElementIcon::ObjectGroup);
    assert_eq!(get_element_icon(false, &MeshSource::Cache), ElementIcon::Gear);
    assert_eq!(get_element_icon(false, &file("scenes/a.dmoon")), ElementIcon::Film);
    assert_eq!(get_element_icon(false, &file("scenes/a.DMOON")), ElementIcon::Film);
    assert_eq!(get_element_icon(false, &file("a.gltf")), ElementIcon::Cube);
    assert_eq!(get_element_icon(false, &file("a.glb")), ElementIcon::Cube);
    assert_eq!(get_element_icon(false, &file("a.obj")), ElementIcon::Cube);
    assert_eq!(get_element_icon(false, &file("a")), ElementIcon::Cube);
}

#[test]
fn mesh_path_of_a_scene_line() {
    assert_eq!(
        mesh_path_of_line("    mesh: File(\"/meshes/ship/scene.gltf\"),"),
        Some("assets/meshes/ship/scene.gltf".to_string())
    );
    assert_eq!(mesh_path_of_line("mesh: \"a.glb\""), Some("assets/a.glb".to_string()));
    assert_eq!(mesh_path_of_line("mesh: \"///a.glb\""), Some("assets/a.glb".to_string()));
    // the text between the first and the last quotation mark
    assert_eq!(mesh_path_of_line("mesh: \"a.glb\" or \"b.glb\""), Some("assets/a.glb\" or \"b.glb".to_string()));
    assert_eq!(mesh_path_of_line("x\"\" mesh: .glb"), Some("assets/".to_string()));
    assert_eq!(mesh_path_of_line("mesh: a.glb"), None);
    assert_eq!(mesh_path_of_line("mesh: \"a.glb"), None);
    assert_eq!(mesh_path_of_line("texture: \"a.glb\""), None);
    assert_eq!(mesh_path_of_line("mesh: \"a.obj\""), None);
    assert_eq!(mesh_path_of_line(""), None);
}

#[test]
fn mesh_path_of_a_scene_file() {
    let content = "(\n  instances: [\n    (\n      position: (0, 0, 0),\n      mesh: File(\"/meshes/a/scene.gltf\"),\n    ),\n    (\n      mesh: File(\"/meshes/b.glb\"),\n    ),\n  ],\n)\n";
    assert_eq!(extract_gltf_path_from_dmoon(content), Some("assets/meshes/a/scene.gltf".to_string()));
    assert_eq!(extract_gltf_path_from_dmoon(""), None);
    assert_eq!(extract_gltf_path_from_dmoon("\n\n"), None);
    assert_eq!(extract_gltf_path_from_dmoon("mesh: .gltf\nmesh: \"x.glb\""), Some("assets/x.glb".to_string()));
    assert_eq!(extract_gltf_path_from_dmoon("mesh: \"x\n.glb\""), None);
    assert_eq!(extract_gltf_path_from_dmoon("a\r\nmesh: \"y.gltf\"\r\n"), Some("assets/y.gltf".to_string()));
    assert_eq!(extract_gltf_path_from_dmoon("mesh: \"last.glb\""), Some("assets/last.glb".to_string()));
}

#[test]
fn shader_names_and_kinds() {
    assert_eq!(file_stem("/shaders/sky/comp_cube.hlsl"), Some("comp_cube"));
    assert_eq!(file_stem("a.tar.gz"), Some("a.tar"));
    assert_eq!(file_stem("noext"), Some("noext"));
    assert_eq!(file_stem(".hidden"), Some(".hidden"));
    assert_eq!(file_stem("dir/"), None);
    assert_eq!(file_stem("dir/a.b/"), None);
    assert_eq!(file_stem("dir/."), Some("."));
    assert_eq!(file_stem(".."), None);
    assert_eq!(file_stem(""), None);
    assert_eq!(shader_name("/shaders/sky/comp_cube.hlsl"), "comp_cube");
    assert_eq!(shader_name(""), "unknown");
    assert_eq!(shader_source_kind("a/b.hlsl"), Ok(ShaderSourceKind::Hlsl));
    assert_eq!(shader_source_kind("a/b.spv"), Ok(ShaderSourceKind::Spirv));
    assert_eq!(shader_source_kind("a/b.glsl"), Err(ShaderError::UnsupportedLanguage("glsl".to_string())));
    assert_eq!(shader_source_kind("a/b.txt"), Err(ShaderError::UnrecognizedExtension("txt".to_string())));
    assert_eq!(shader_source_kind("a/b"), Err(ShaderError::UnrecognizedExtension("".to_string())));
    assert_eq!(ray_tracing_source_kind("rt.hlsl"), Ok(ShaderSourceKind::Hlsl));
    assert_eq!(ray_tracing_source_kind("rt.spv"), Err(ShaderError::UnrecognizedExtension("spv".to_string())));
    assert_eq!(ray_tracing_source_kind("rt.glsl"), Err(ShaderError::UnsupportedLanguage("glsl".to_string())));
    assert_eq!(
        ShaderError::UnrecognizedExtension("txt".to_string()).message(),
        "Unrecognized shader file extension: txt"
    );
    assert_eq!(ShaderError::UnsupportedLanguage("glsl".to_string()).message(), "Unsupported shader language: glsl");
    assert_eq!(target_profile("cs"), "cs_6_4");
    assert_eq!(target_profile("ps"), "ps_6_4");
    assert_eq!(RAY_TRACING_TARGET_PROFILE, "lib_6_4");
    assert_eq!(compiler_arguments(), vec!["-spirv", "-fspv-target-env=vulkan1.2", "-WX", "-Ges", "-HV 2021"]);
    assert_eq!(
        shader_source_text(&vec!["float4 ".to_string(), "".to_string(), "main()".to_string()]),
        "float4 main()"
    );
    assert_eq!(shader_source_text(&Vec::new()), "");
}

#[test]
fn include_paths() {
    assert_eq!(resolve_path("/inc/math.hlsl", "/shaders/sky/comp.hlsl"), "/inc/math.hlsl");
    assert_eq!(resolve_path("math.hlsl", "/shaders/sky/comp.hlsl"), "/shaders/sky/math.hlsl");
    assert_eq!(resolve_path("../inc/math.hlsl", "sky/comp.hlsl"), "sky/../inc/math.hlsl");
    assert_eq!(resolve_path("math.hlsl", "comp.hlsl"), "math.hlsl");
    assert_eq!(resolve_path("math.hlsl", ""), "math.hlsl");
    assert_eq!(resolve_path("", "a/b/c.hlsl"), "a/b/");
    assert_eq!(include_file_path("/shaders/inc/math.hlsl"), "assets/shaders/inc/math.hlsl");
    assert_eq!(include_file_path("inc/math.hlsl"), "assets/shaders/inc/math.hlsl");
    assert_eq!(include_file_path(""), "assets/shaders/");
}

fn compute_shader(local_size: [u32; 3]) -> Vec<u32> {
    vec![
        0x0723_0203, 0x0001_0000, 0, 4, 0, // header: magic, version 1.0, generator, bound, schema
        0x0002_0011, 1, // OpCapability Shader
        0x0003_000e, 0, 1, // OpMemoryModel Logical GLSL450
        0x0005_000f, 5, 3, 0x6e69_616d, 0, // OpEntryPoint GLCompute %3 "main"
        0x0006_0010, 3, 17, local_size[0], local_size[1], local_size[2], // OpExecutionMode %3 LocalSize
        0x0002_0013, 1, // %1 = OpTypeVoid
        0x0003_0021, 2, 1, // %2 = OpTypeFunction %1
    ]
}

#[test]
fn local_size_of_a_compute_shader() {
    assert_eq!(get_cs_local_size_from_spirv(&compute_shader([8, 8, 1])), Ok([8, 8, 1]));
    assert_eq!(get_cs_local_size_from_spirv(&compute_shader([64, 1, 1])), Ok([64, 1, 1]));
    assert_eq!(get_cs_local_size_from_spirv(&compute_shader([1, 2, 3])), Ok([1, 2, 3]));
}

#[test]
fn local_size_errors() {
    assert_eq!(get_cs_local_size_from_spirv(&[]), Err(LocalSizeError::InvalidModule));
    assert_eq!(get_cs_local_size_from_spirv(&[1, 2, 3, 4, 5]), Err(LocalSizeError::InvalidModule));
    let header_only = vec![0x0723_0203, 0x0001_0000, 0, 4, 0];
    assert_eq!(get_cs_local_size_from_spirv(&header_only), Err(LocalSizeError::NoExecutionMode));
    assert_eq!(LocalSizeError::InvalidModule.message(), "Could not parse the SPIR-V module");
    assert_eq!(LocalSizeError::NoExecutionMode.message(), "Could not find a ExecutionMode SPIR-V op");
    assert_eq!(LocalSizeError::UnexpectedOperands.message(), "Could not parse the ExecutionMode SPIR-V op");
}

#[test]
fn local_size_from_given_instructions() {
    let mode = |operands: Vec<Option<u32>>| SpirvInstruction { opcode: OP_EXECUTION_MODE, operands };
    let other = SpirvInstruction { opcode: 17, operands: vec![Some(1)] };
    assert_eq!(
        local_size_from_instructions(&vec![other.clone(), mode(vec![None, None, Some(4), Some(5), Some(6)])]),
        Ok([4, 5, 6])
    );
    // the first execution mode decides
    assert_eq!(
        local_size_from_instructions(&vec![
            mode(vec![None, None, Some(1), Some(1), Some(1), Some(9)]),
            mode(vec![None, None, Some(4), Some(5), Some(6)]),
        ]),
        Ok([1, 1, 1])
    );
    assert_eq!(
        local_size_from_instructions(&vec![mode(vec![None, None, Some(4), None, Some(6)])]),
        Err(LocalSizeError::UnexpectedOperands)
    );
    assert_eq!(
        local_size_from_instructions(&vec![mode(vec![None, None, Some(4), Some(5)]), mode(vec![None, None, Some(4), Some(5), Some(6)])]),
        Err(LocalSizeError::UnexpectedOperands)
    );
    assert_eq!(local_size_from_instructions(&vec![other]), Err(LocalSizeError::NoExecutionMode));
    assert_eq!(local_size_from_instructions(&Vec::new()), Err(LocalSizeError::NoExecutionMode));
}

#[test]
fn simulated_compilation() {
    let shaders = simulation_shaders();
    assert_eq!(shaders.len(), 15);
    assert_eq!(shaders[0], "/shaders/rt/gbuffer.rchit.hlsl");
    assert_eq!(shaders[14], "rust::bloom_downsample_cs");
    assert_eq!(simulated_compilation_millis(0), 1000);
    assert_eq!(simulated_compilation_millis(1), 1323);
    assert_eq!(simulated_compilation_millis(9), 1000 + 1800 + 107);
    assert_eq!(simulated_compilation_millis(14), 1000 + 2800 + 722);
    assert_eq!(simulated_compilation_millis(u32::MAX), 1000 + 858_993_459_000 + 285);

    let mut tracker = ShaderProgressTracker::new();
    assert!(!is_shader_compilation_active(&tracker));
    assert!(simulate_shader_compilation(&mut tracker, &shaders));
    assert!(tracker.get_progress().is_simulation_mode);
    assert_eq!(tracker.get_progress().total_shaders, 15);
    assert!(is_shader_compilation_active(&tracker));
    // a simulation may start over a simulation
    assert!(simulate_shader_compilation(&mut tracker, &shaders));
    assert_eq!(tracker.get_progress().total_shaders, 15);
    for shader in shaders.iter() {
        tracker.start_compiling_shader(shader);
        tracker.finish_compiling_shader(shader, true);
    }
    assert!(tracker.is_compilation_complete());
    assert!(!monitor_simulation(&mut tracker, 0));
    assert!(!monitor_simulation(&mut tracker, 29));
    tracker.set_pipeline_compilation_active(true);
    assert!(is_shader_compilation_active(&tracker));
    // pipeline compilation ended the simulation: monitoring ends at once
    assert!(monitor_simulation(&mut tracker, 0));
    assert!(tracker.is_pipeline_compilation_active());
}

#[test]
fn simulation_gives_way_to_a_real_run() {
    let mut tracker = ShaderProgressTracker::new();
    tracker.register_shader("/shaders/real.hlsl");
    assert!(!simulate_shader_compilation(&mut tracker, &simulation_shaders()));
    assert_eq!(tracker.get_progress().total_shaders, 1);
    assert!(!tracker.get_progress().is_simulation_mode);
}

#[test]
fn simulation_monitoring_times_out() {
    let mut tracker = ShaderProgressTracker::new();
    assert!(simulate_shader_compilation(&mut tracker, &Vec::new()));
    tracker.set_simulation_mode(true);
    assert!(!monitor_simulation(&mut tracker, 29));
    assert!(tracker.get_progress().is_simulation_mode);
    assert!(monitor_simulation(&mut tracker, 30));
    assert!(!tracker.is_pipeline_compilation_active());
    assert!(tracker.is_compilation_complete());
    assert!(tracker.get_progress().is_simulation_mode);
}

const HEADER: [u32; 5] = [0x0723_0203, 0x0001_0000, 0, 0, 0];

fn module(instructions: &[u32]) -> Vec<u32> {
    let mut words = HEADER.to_vec();
    words.extend_from_slice(instructions);
    words
}

#[test]
fn unfit_specialization_constant_operations_are_turned_away() {
    // OpSpecConstantOp of four words that names OpConstant, OpSpecConstant,
    // OpSpecConstantOp and OpSwitch
    for inner in [43, 50, 52, 251] {
        let words = module(&[0x0004_0034, 1, 2, inner]);
        assert!(!module_is_admitted(&words));
        assert_eq!(get_cs_local_size_from_spirv(&words), Err(LocalSizeError::InvalidModule));
        let longer = module(&[0x0007_0034, 1, 2, inner, 3, 4, 5]);
        assert!(!module_is_admitted(&longer));
        assert_eq!(get_cs_local_size_from_spirv(&longer), Err(LocalSizeError::InvalidModule));
    }
    // behind a well-formed instruction too
    let words = module(&[0x0002_0011, 1, 0x0004_0034, 1, 2, 43]);
    assert!(!module_is_admitted(&words));
    assert_eq!(get_cs_local_size_from_spirv(&words), Err(LocalSizeError::InvalidModule));
}

#[test]
fn specialization_constant_operations_that_fit_reach_the_parser() {
    // OpSpecConstantOp %1 %2 IAdd %3 %4
    let words = module(&[0x0006_0034, 1, 2, 128, 3, 4]);
    assert!(module_is_admitted(&words));
    assert_eq!(get_cs_local_size_from_spirv(&words), Err(LocalSizeError::NoExecutionMode));
    // too short to name an operation: the parser turns it away itself
    let short = module(&[0x0003_0034, 1, 2, 0x0002_0011, 1]);
    assert!(module_is_admitted(&short));
    assert_eq!(get_cs_local_size_from_spirv(&short), Err(LocalSizeError::InvalidModule));
    // the fourth word of another instruction may be any number
    let name = module(&[0x0004_0005, 1, 0x0000_0061, 43]);
    assert!(module_is_admitted(&name));
}

#[test]
fn instructions_that_run_past_the_end_are_turned_away() {
    // OpName that claims four words where two are left, its string without an end
    let words = module(&[0x0004_0005, 0x6161_6161]);
    assert!(!module_is_admitted(&words));
    assert_eq!(get_cs_local_size_from_spirv(&words), Err(LocalSizeError::InvalidModule));
    // OpSource that claims the largest word count
    let words = module(&[0xffff_0003, 1, 2, 3]);
    assert!(!module_is_admitted(&words));
    assert_eq!(get_cs_local_size_from_spirv(&words), Err(LocalSizeError::InvalidModule));
    // an instruction that ends with the words is in order
    let words = module(&[0x0002_0011, 1]);
    assert!(module_is_admitted(&words));
    assert_eq!(get_cs_local_size_from_spirv(&words), Err(LocalSizeError::NoExecutionMode));
}

#[test]
fn framing_stops_at_a_word_count_of_zero() {
    // what stands behind an instruction of no words is not looked at
    let words = module(&[0x0000_0034, 1, 2, 43, 0x0004_0034, 1, 2, 43]);
    assert!(module_is_admitted(&words));
    assert_eq!(get_cs_local_size_from_spirv(&words), Err(LocalSizeError::InvalidModule));
    assert!(module_is_admitted(&[]));
    assert!(module_is_admitted(&[1, 2, 3]));
    assert!(module_is_admitted(&HEADER));
    assert_eq!(get_cs_local_size_from_spirv(&[0x0004_0034, 1, 2, 43]), Err(LocalSizeError::InvalidModule));
}
