//! Progress of shader and pipeline compilation: how many shaders are
//! registered, compiled and failed, and whether pipeline compilation has
//! gone quiet for long enough to count as finished.

use vstd::prelude::*;
use vstd::string::StringExecFns;
use crate::counters::{bumped, bumped_usize, capped_sum};
use crate::text::{decimal_text, number_text, str_eq};

verus! {

/// The number of quiet frames after which pipeline compilation counts as finished.
pub const PIPELINE_COOLDOWN_FRAMES: u32 = 60;

/// The number of compiled pipelines above which a forced finish is considered.
pub const FORCE_FINISH_PIPELINES: u32 = 50;

/// The number of quiet frames above which a forced finish is considered.
pub const FORCE_FINISH_FRAMES: u32 = 30;

/// The figures of a compilation run.
#[derive(Debug, Clone)]
pub struct ShaderCompilationProgress {
    pub total_shaders: usize,
    pub completed_shaders: usize,
    pub current_shader: Option<String>,
    pub is_complete: bool,
    pub failed_shaders: Vec<String>,
    pub is_simulation_mode: bool,
}

/// What the figures of a compilation run hold.
pub struct ProgressView {
    pub total_shaders: usize,
    pub completed_shaders: usize,
    pub current_shader: Option<Seq<char>>,
    pub is_complete: bool,
    pub failed_shaders: Seq<Seq<char>>,
    pub is_simulation_mode: bool,
}

impl View for ShaderCompilationProgress {
    type V = ProgressView;

    open spec fn view(&self) -> ProgressView {
        ProgressView {
            total_shaders: self.total_shaders,
            completed_shaders: self.completed_shaders,
            current_shader: match self.current_shader {
                Some(path) => Some(path@),
                None => None,
            },
            is_complete: self.is_complete,
            failed_shaders: self.failed_shaders@.map_values(|path: String| path@),
            is_simulation_mode: self.is_simulation_mode,
        }
    }
}

impl ProgressView {
    /// The figures before anything was registered.
    pub open spec fn fresh() -> ProgressView {
        ProgressView {
            total_shaders: 0,
            completed_shaders: 0,
            current_shader: None,
            is_complete: false,
            failed_shaders: Seq::empty(),
            is_simulation_mode: false,
        }
    }

    /// Every registered shader was compiled or has failed.
    pub open spec fn all_processed(self) -> bool {
        self.completed_shaders + self.failed_shaders.len() >= self.total_shaders
    }

    /// The share of registered shaders that were compiled, in whole percent
    /// rounded down and not above the largest `u64`; one hundred where
    /// nothing is registered.
    pub open spec fn percentage(self) -> int {
        if self.total_shaders == 0 {
            100
        } else if self.completed_shaders * 100 / (self.total_shaders as int) > u64::MAX {
            u64::MAX as int
        } else {
            self.completed_shaders * 100 / (self.total_shaders as int)
        }
    }

    /// The two counts in brackets: ` (completed/total)`.
    pub open spec fn counts_text(self) -> Seq<char> {
        " ("@ + decimal_text(self.completed_shaders as nat) + "/"@ + decimal_text(
            self.total_shaders as nat,
        ) + ")"@
    }

    /// The line that tells a user where compilation stands.
    pub open spec fn status_text(self) -> Seq<char> {
        if self.is_complete {
            if self.is_simulation_mode {
                "Simulation complete! Real shader compilation may continue..."@
                    + self.counts_text()
            } else {
                "Shader compilation complete!"@ + self.counts_text()
            }
        } else {
            match self.current_shader {
                Some(current) => "Compiling: "@ + current + self.counts_text(),
                None => "Preparing shader compilation..."@ + self.counts_text(),
            }
        }
    }
}

impl ShaderCompilationProgress {
    /// The figures before anything was registered.
    pub fn new() -> (r: ShaderCompilationProgress)
        ensures
            r@ == ProgressView::fresh(),
    {
        let r = ShaderCompilationProgress {
            total_shaders: 0,
            completed_shaders: 0,
            current_shader: None,
            is_complete: false,
            failed_shaders: Vec::new(),
            is_simulation_mode: false,
        };
        assert(r@.failed_shaders =~= Seq::empty());
        r
    }

    /// The share of registered shaders that were compiled, in whole percent.
    pub fn progress_percentage(&self) -> (r: u64)
        ensures
            r == self@.percentage(),
    {
        if self.total_shaders == 0 {
            100
        } else {
            let share: u128 = (self.completed_shaders as u128) * 100 / (self.total_shaders as u128);
            if share > (u64::MAX as u128) {
                u64::MAX
            } else {
                share as u64
            }
        }
    }

    /// The line that tells a user where compilation stands.
    pub fn status_text(&self) -> (r: String)
        ensures
            r@ == self@.status_text(),
    {
        let mut text = if self.is_complete {
            if self.is_simulation_mode {
                String::from_str("Simulation complete! Real shader compilation may continue...")
            } else {
                String::from_str("Shader compilation complete!")
            }
        } else {
            match &self.current_shader {
                Some(current) => {
                    let mut line = String::from_str("Compiling: ");
                    line.append(current.as_str());
                    line
                },
                None => String::from_str("Preparing shader compilation..."),
            }
        };
        let ghost lead = text@;
        text.append(" (");
        let completed = number_text(self.completed_shaders as u64);
        text.append(completed.as_str());
        text.append("/");
        let total = number_text(self.total_shaders as u64);
        text.append(total.as_str());
        text.append(")");
        assert(text@ =~= lead + self@.counts_text());
        text
    }

    /// A copy of the figures.
    pub fn duplicate(&self) -> (r: ShaderCompilationProgress)
        ensures
            r@ == self@,
    {
        let mut failed: Vec<String> = Vec::new();
        let mut i: usize = 0;
        while i < self.failed_shaders.len()
            invariant
                i <= self.failed_shaders.len(),
                failed@.len() == i,
                forall|k: int| 0 <= k < i ==> (#[trigger] failed@[k])@ == self.failed_shaders@[k]@,
            decreases self.failed_shaders.len() - i,
        {
            failed.push(self.failed_shaders[i].clone());
            i += 1;
        }
        let r = ShaderCompilationProgress {
            total_shaders: self.total_shaders,
            completed_shaders: self.completed_shaders,
            current_shader: match &self.current_shader {
                Some(path) => Some(path.clone()),
                None => None,
            },
            is_complete: self.is_complete,
            failed_shaders: failed,
            is_simulation_mode: self.is_simulation_mode,
        };
        assert(r@.failed_shaders =~= self@.failed_shaders);
        r
    }
}

/// A registered shader and whether it was compiled.
#[derive(Debug, Clone)]
pub struct ShaderState {
    path: String,
    compiled: bool,
}

/// What a registered shader holds.
pub struct ShaderStateView {
    pub path: Seq<char>,
    pub compiled: bool,
}

impl View for ShaderState {
    type V = ShaderStateView;

    closed spec fn view(&self) -> ShaderStateView {
        ShaderStateView { path: self.path@, compiled: self.compiled }
    }
}

/// The position of the shader with the given path, or `-1` where there is
/// none. Where several have the path, the last of them counts.
pub open spec fn shader_index(shaders: Seq<ShaderStateView>, path: Seq<char>) -> int
    decreases shaders.len(),
{
    if shaders.len() == 0 {
        -1
    } else if shaders.last().path == path {
        shaders.len() - 1
    } else {
        shader_index(shaders.drop_last(), path)
    }
}

/// The state of a tracker.
pub struct TrackerView {
    pub progress: ProgressView,
    pub shaders: Seq<ShaderStateView>,
    pub pipeline_compilation_active: bool,
    pub frames_since_last_compilation: u32,
    pub pipeline_compilation_cooldown_frames: u32,
    pub total_pipelines_compiled_this_session: u32,
}

impl TrackerView {
    /// A tracker before anything was registered.
    pub open spec fn fresh() -> TrackerView {
        TrackerView {
            progress: ProgressView::fresh(),
            shaders: Seq::empty(),
            pipeline_compilation_active: false,
            frames_since_last_compilation: 0,
            pipeline_compilation_cooldown_frames: PIPELINE_COOLDOWN_FRAMES,
            total_pipelines_compiled_this_session: 0,
        }
    }

    /// The tracker after a shader was registered: it counts as not
    /// compiled, whether it was known or not, and the total is the number
    /// of registered shaders.
    pub open spec fn register_shader(self, path: Seq<char>) -> TrackerView {
        let at = shader_index(self.shaders, path);
        let entry = ShaderStateView { path, compiled: false };
        let shaders = if at >= 0 {
            self.shaders.update(at, entry)
        } else {
            self.shaders.push(entry)
        };
        TrackerView {
            shaders,
            progress: ProgressView { total_shaders: shaders.len() as usize, ..self.progress },
            ..self
        }
    }

    /// The tracker after compilation of a shader began.
    pub open spec fn start_compiling_shader(self, path: Seq<char>) -> TrackerView {
        TrackerView {
            progress: ProgressView { current_shader: Some(path), ..self.progress },
            ..self
        }
    }

    /// The tracker after compilation of a shader ended. A registered shader
    /// takes the outcome as its state. Success counts one more completed
    /// shader, failure lists the shader as failed. No shader is current any
    /// more, and the run is complete when every shader was processed and
    /// pipeline compilation is not active.
    pub open spec fn finish_compiling_shader(self, path: Seq<char>, success: bool) -> TrackerView {
        let at = shader_index(self.shaders, path);
        let shaders = if at >= 0 {
            self.shaders.update(at, ShaderStateView { path: self.shaders[at].path, compiled: success })
        } else {
            self.shaders
        };
        let counted = ProgressView {
            completed_shaders: if success {
                bumped_usize(self.progress.completed_shaders)
            } else {
                self.progress.completed_shaders
            },
            failed_shaders: if success {
                self.progress.failed_shaders
            } else {
                self.progress.failed_shaders.push(path)
            },
            current_shader: None,
            ..self.progress
        };
        TrackerView {
            shaders,
            progress: ProgressView {
                is_complete: counted.all_processed() && !self.pipeline_compilation_active,
                ..counted
            },
            ..self
        }
    }

    /// The tracker after pipeline compilation was switched on or off.
    /// Switching it on starts the count of quiet frames afresh and ends
    /// simulation mode. The run is complete when every shader was processed
    /// and pipeline compilation is off.
    pub open spec fn set_pipeline_compilation_active(self, active: bool) -> TrackerView {
        TrackerView {
            pipeline_compilation_active: active,
            frames_since_last_compilation: if active {
                0
            } else {
                self.frames_since_last_compilation
            },
            progress: ProgressView {
                is_complete: self.progress.all_processed() && !active,
                is_simulation_mode: self.progress.is_simulation_mode && !active,
                ..self.progress
            },
            ..self
        }
    }

    /// The count of quiet frames after a frame in which the given number of
    /// pipelines was compiled.
    pub open spec fn quiet_frames_after(self, pipelines_compiled_this_frame: u32) -> u32 {
        if pipelines_compiled_this_frame > 0 {
            0
        } else if self.pipeline_compilation_active {
            bumped(self.frames_since_last_compilation)
        } else {
            self.frames_since_last_compilation
        }
    }

    /// The tracker after a frame. A frame with compiled pipelines adds them
    /// to the session's total and starts the count of quiet frames afresh; a
    /// quiet frame counts while pipeline compilation is active. Once the
    /// quiet frames reach the cooldown, pipeline compilation is over, and
    /// the run is complete if every shader was processed.
    pub open spec fn update_frame(self, pipelines_compiled_this_frame: u32) -> TrackerView {
        let quiet = self.quiet_frames_after(pipelines_compiled_this_frame);
        let total = if pipelines_compiled_this_frame > 0 {
            capped_sum(self.total_pipelines_compiled_this_session, pipelines_compiled_this_frame)
        } else {
            self.total_pipelines_compiled_this_session
        };
        let cooled = self.pipeline_compilation_active && quiet
            >= self.pipeline_compilation_cooldown_frames;
        TrackerView {
            frames_since_last_compilation: quiet,
            total_pipelines_compiled_this_session: total,
            pipeline_compilation_active: self.pipeline_compilation_active && !cooled,
            progress: if cooled {
                ProgressView { is_complete: self.progress.all_processed(), ..self.progress }
            } else {
                self.progress
            },
            ..self
        }
    }

    /// Whether so many pipelines were compiled, and so many frames have
    /// been quiet, that compilation may be taken as finished.
    pub open spec fn should_force_finish(self) -> bool {
        self.total_pipelines_compiled_this_session > FORCE_FINISH_PIPELINES
            && self.frames_since_last_compilation > FORCE_FINISH_FRAMES
    }

    /// The tracker with simulation mode switched on or off.
    pub open spec fn set_simulation_mode(self, is_simulation: bool) -> TrackerView {
        TrackerView {
            progress: ProgressView { is_simulation_mode: is_simulation, ..self.progress },
            ..self
        }
    }

    /// The tracker made ready for a real compilation run: nothing is
    /// registered, all counts are zero, and pipeline compilation is active.
    pub open spec fn reset_for_real_compilation(self) -> TrackerView {
        TrackerView {
            progress: ProgressView::fresh(),
            shaders: Seq::empty(),
            pipeline_compilation_active: true,
            frames_since_last_compilation: 0,
            total_pipelines_compiled_this_session: 0,
            ..self
        }
    }

    /// Whether a run is under way: shaders are registered and the run is
    /// not complete.
    pub open spec fn compilation_active(self) -> bool {
        self.progress.total_shaders > 0 && !self.progress.is_complete
    }

    /// Whether a run is under way, or shaders are registered while pipeline
    /// compilation is active.
    pub open spec fn heavy_work_active(self) -> bool {
        self.compilation_active() || (self.progress.total_shaders > 0
            && self.pipeline_compilation_active)
    }
}

/// Extending a prefix by one shader moves [`shader_index`] to the new
/// shader exactly when it has the path.
proof fn lemma_shader_index_step(shaders: Seq<ShaderStateView>, n: int, path: Seq<char>)
    requires
        0 <= n < shaders.len(),
    ensures
        shader_index(shaders.subrange(0, n + 1), path) == if shaders[n].path == path {
            n
        } else {
            shader_index(shaders.subrange(0, n), path)
        },
{
    let prefix = shaders.subrange(0, n + 1);
    assert(prefix.last() == shaders[n]);
    assert(prefix.drop_last() =~= shaders.subrange(0, n));
}

/// Tracks the progress of shader and pipeline compilation.
#[derive(Debug)]
pub struct ShaderProgressTracker {
    progress: ShaderCompilationProgress,
    shader_states: Vec<ShaderState>,
    pipeline_compilation_active: bool,
    frames_since_last_compilation: u32,
    pipeline_compilation_cooldown_frames: u32,
    total_pipelines_compiled_this_session: u32,
}

/// The views of a sequence of shader states, in order.
pub closed spec fn states_of(shaders: Seq<ShaderState>) -> Seq<ShaderStateView> {
    Seq::new(shaders.len(), |i: int| shaders[i]@)
}

impl View for ShaderProgressTracker {
    type V = TrackerView;

    closed spec fn view(&self) -> TrackerView {
        TrackerView {
            progress: self.progress@,
            shaders: states_of(self.shader_states@),
            pipeline_compilation_active: self.pipeline_compilation_active,
            frames_since_last_compilation: self.frames_since_last_compilation,
            pipeline_compilation_cooldown_frames: self.pipeline_compilation_cooldown_frames,
            total_pipelines_compiled_this_session: self.total_pipelines_compiled_this_session,
        }
    }
}

impl ShaderProgressTracker {
    /// A tracker before anything was registered.
    pub fn new() -> (r: ShaderProgressTracker)
        ensures
            r@ == TrackerView::fresh(),
    {
        let r = ShaderProgressTracker {
            progress: ShaderCompilationProgress::new(),
            shader_states: Vec::new(),
            pipeline_compilation_active: false,
            frames_since_last_compilation: 0,
            pipeline_compilation_cooldown_frames: PIPELINE_COOLDOWN_FRAMES,
            total_pipelines_compiled_this_session: 0,
        };
        assert(r@.shaders =~= Seq::empty());
        r
    }

    /// The figures of the run.
    pub fn get_progress(&self) -> (r: &ShaderCompilationProgress)
        ensures
            r@ == self@.progress,
    {
        &self.progress
    }

    /// The position of the shader with the given path.
    fn find_shader(&self, path: &str) -> (r: Option<usize>)
        ensures
            match r {
                Some(at) => at == shader_index(self@.shaders, path@) && at < self@.shaders.len(),
                None => shader_index(self@.shaders, path@) == -1,
            },
    {
        let mut found: Option<usize> = None;
        let mut i: usize = 0;
        while i < self.shader_states.len()
            invariant
                i <= self.shader_states.len(),
                match found {
                    Some(at) => at == shader_index(self@.shaders.subrange(0, i as int), path@)
                        && at < i,
                    None => shader_index(self@.shaders.subrange(0, i as int), path@) == -1,
                },
            decreases self.shader_states.len() - i,
        {
            proof {
                lemma_shader_index_step(self@.shaders, i as int, path@);
            }
            if str_eq(self.shader_states[i].path.as_str(), path) {
                found = Some(i);
            }
            i += 1;
        }
        assert(self@.shaders.subrange(0, i as int) =~= self@.shaders);
        found
    }

    /// Registers a shader as not compiled.
    pub fn register_shader(&mut self, shader_path: &str)
        ensures
            final(self)@ == old(self)@.register_shader(shader_path@),
    {
        let ghost before = self@;
        match self.find_shader(shader_path) {
            Some(at) => {
                self.shader_states[at] = ShaderState {
                    path: String::from_str(shader_path),
                    compiled: false,
                };
            },
            None => {
                self.shader_states.push(
                    ShaderState { path: String::from_str(shader_path), compiled: false },
                );
            },
        }
        self.progress.total_shaders = self.shader_states.len();
        assert(self@.shaders =~= before.register_shader(shader_path@).shaders);
    }

    /// Notes that compilation of a shader began.
    pub fn start_compiling_shader(&mut self, shader_path: &str)
        ensures
            final(self)@ == old(self)@.start_compiling_shader(shader_path@),
    {
        self.progress.current_shader = Some(String::from_str(shader_path));
    }

    /// Whether every registered shader was compiled or has failed.
    fn all_processed(&self) -> (r: bool)
        ensures
            r == self@.progress.all_processed(),
    {
        (self.progress.completed_shaders as u128) + (self.progress.failed_shaders.len() as u128)
            >= (self.progress.total_shaders as u128)
    }

    /// Notes that compilation of a shader ended, with or without success.
    pub fn finish_compiling_shader(&mut self, shader_path: &str, success: bool)
        ensures
            final(self)@ == old(self)@.finish_compiling_shader(shader_path@, success),
    {
        let ghost before = self@;
        if let Some(at) = self.find_shader(shader_path) {
            self.shader_states[at].compiled = success;
        }
        assert(self@.shaders =~= before.finish_compiling_shader(shader_path@, success).shaders);
        if success {
            self.progress.completed_shaders = self.progress.completed_shaders.saturating_add(1);
        } else {
            self.progress.failed_shaders.push(String::from_str(shader_path));
        }
        self.progress.current_shader = None;
        let all_processed = self.all_processed();
        self.progress.is_complete = all_processed && !self.pipeline_compilation_active;
        assert(self@.progress.failed_shaders =~= before.finish_compiling_shader(
            shader_path@,
            success,
        ).progress.failed_shaders);
    }

    /// Switches pipeline compilation on or off.
    pub fn set_pipeline_compilation_active(&mut self, active: bool)
        ensures
            final(self)@ == old(self)@.set_pipeline_compilation_active(active),
    {
        self.pipeline_compilation_active = active;
        if active {
            self.frames_since_last_compilation = 0;
        }
        let all_processed = self.all_processed();
        self.progress.is_complete = all_processed && !active;
        if active && self.progress.is_simulation_mode {
            self.progress.is_simulation_mode = false;
        }
    }

    /// Accounts for one frame in which the given number of pipelines was compiled.
    pub fn update_frame(&mut self, pipelines_compiled_this_frame: u32)
        ensures
            final(self)@ == old(self)@.update_frame(pipelines_compiled_this_frame),
    {
        if pipelines_compiled_this_frame > 0 {
            self.frames_since_last_compilation = 0;
            self.total_pipelines_compiled_this_session =
            self.total_pipelines_compiled_this_session.saturating_add(
                pipelines_compiled_this_frame,
            );
        } else if self.pipeline_compilation_active {
            self.frames_since_last_compilation = self.frames_since_last_compilation.saturating_add(
                1,
            );
        }
        if self.pipeline_compilation_active && self.frames_since_last_compilation
            >= self.pipeline_compilation_cooldown_frames {
            self.pipeline_compilation_active = false;
            let all_processed = self.all_processed();
            self.progress.is_complete = all_processed;
        }
    }

    /// Whether compilation may be taken as finished although the cooldown
    /// has not said so.
    pub fn should_force_finish_compilation(&self) -> (r: bool)
        ensures
            r == self@.should_force_finish(),
    {
        self.total_pipelines_compiled_this_session > FORCE_FINISH_PIPELINES
            && self.frames_since_last_compilation > FORCE_FINISH_FRAMES
    }

    /// Switches simulation mode on or off.
    pub fn set_simulation_mode(&mut self, is_simulation: bool)
        ensures
            final(self)@ == old(self)@.set_simulation_mode(is_simulation),
    {
        self.progress.is_simulation_mode = is_simulation;
    }

    /// Makes the tracker ready for a real compilation run.
    pub fn reset_for_real_compilation(&mut self)
        ensures
            final(self)@ == old(self)@.reset_for_real_compilation(),
    {
        self.shader_states.clear();
        self.pipeline_compilation_active = true;
        self.frames_since_last_compilation = 0;
        self.total_pipelines_compiled_this_session = 0;
        self.progress.total_shaders = 0;
        self.progress.completed_shaders = 0;
        self.progress.current_shader = None;
        self.progress.is_complete = false;
        self.progress.failed_shaders.clear();
        self.progress.is_simulation_mode = false;
        assert(self@.shaders =~= Seq::empty());
        assert(self@.progress.failed_shaders =~= Seq::empty());
    }

    /// Whether the run is complete.
    pub fn is_compilation_complete(&self) -> (r: bool)
        ensures
            r == self@.progress.is_complete,
    {
        self.progress.is_complete
    }

    /// Whether pipeline compilation is active.
    pub fn is_pipeline_compilation_active(&self) -> (r: bool)
        ensures
            r == self@.pipeline_compilation_active,
    {
        self.pipeline_compilation_active
    }
}

/// Makes a tracker ready for a real compilation run, dropping what a
/// simulation left in it.
pub fn start_real_compilation(tracker: &mut ShaderProgressTracker)
    ensures
        final(tracker)@ == old(tracker)@.reset_for_real_compilation(),
{
    tracker.reset_for_real_compilation();
}

/// Accounts for one frame of the render loop.
pub fn update_pipeline_compilation_frame(
    tracker: &mut ShaderProgressTracker,
    pipelines_compiled_this_frame: u32,
)
    ensures
        final(tracker)@ == old(tracker)@.update_frame(pipelines_compiled_this_frame),
{
    tracker.update_frame(pipelines_compiled_this_frame);
}

/// Whether a compilation run, real or simulated, is under way.
pub fn is_compilation_active(tracker: &ShaderProgressTracker) -> (r: bool)
    ensures
        r == tracker@.compilation_active(),
{
    let progress = tracker.get_progress();
    progress.total_shaders > 0 && !progress.is_complete
}

/// Whether a compilation run is under way or the tracker shows signs of
/// heavy shader work.
pub fn is_compilation_or_heavy_work_active(tracker: &ShaderProgressTracker) -> (r: bool)
    ensures
        r == tracker@.heavy_work_active(),
{
    if is_compilation_active(tracker) {
        return true;
    }
    let progress = tracker.get_progress();
    progress.total_shaders > 0 && tracker.is_pipeline_compilation_active()
}

/// Once the quiet frames have reached the cooldown, pipeline compilation is
/// no longer active after the frame.
pub proof fn lemma_cooldown_ends_pipeline_compilation(tracker: TrackerView, compiled: u32)
    requires
        tracker.quiet_frames_after(compiled) >= tracker.pipeline_compilation_cooldown_frames,
    ensures
        !tracker.update_frame(compiled).pipeline_compilation_active,
{
}

/// A frame in which pipelines were compiled keeps pipeline compilation as
/// it was, as long as the cooldown is not zero.
pub proof fn lemma_busy_frame_keeps_pipeline_state(tracker: TrackerView, compiled: u32)
    requires
        compiled > 0,
        tracker.pipeline_compilation_cooldown_frames > 0,
    ensures
        tracker.update_frame(compiled).pipeline_compilation_active
            == tracker.pipeline_compilation_active,
        tracker.update_frame(compiled).frames_since_last_compilation == 0,
        tracker.update_frame(compiled).progress == tracker.progress,
{
}

/// The number of checks after which a finished simulation stops waiting for
/// a real compilation run.
pub const SIMULATION_MONITORING_LIMIT: u32 = 30;

/// The number of shaders that a simulated run compiles.
pub const SIMULATION_SHADER_COUNT: usize = 15;

impl TrackerView {
    /// Whether the progress of compilation is to be shown: a run is under
    /// way, or pipeline compilation is active.
    pub open spec fn shows_compilation(self) -> bool {
        self.compilation_active() || self.pipeline_compilation_active
    }

    /// Whether a real run is under way, so that no simulation may start.
    pub open spec fn real_run_under_way(self) -> bool {
        self.progress.total_shaders > 0 && !self.progress.is_simulation_mode
    }

    /// The tracker after the shaders were registered, in order.
    pub open spec fn register_all(self, shaders: Seq<&'static str>) -> TrackerView
        decreases shaders.len(),
    {
        if shaders.len() == 0 {
            self
        } else {
            self.register_all(shaders.drop_last()).register_shader(shaders.last()@)
        }
    }

    /// Whether a finished simulation stops waiting after the given number
    /// of checks: a real run has taken over, or the limit is reached.
    pub open spec fn simulation_monitoring_ends(self, checks: u32) -> bool {
        !self.progress.is_simulation_mode || checks >= SIMULATION_MONITORING_LIMIT
    }

    /// The tracker after a finished simulation was checked: at the limit,
    /// with simulation mode still on, pipeline compilation is switched off.
    pub open spec fn monitor_simulation(self, checks: u32) -> TrackerView {
        if self.progress.is_simulation_mode && checks >= SIMULATION_MONITORING_LIMIT {
            self.set_pipeline_compilation_active(false)
        } else {
            self
        }
    }
}

/// The time, in milliseconds, that the simulation takes for the shader
/// with the given number: between one and three seconds, growing with the
/// number.
pub open spec fn simulated_time_of(index: u32) -> int {
    1000 + index * 200 + (index * 123) % 1000
}

/// Whether the progress of compilation is to be shown.
pub fn is_shader_compilation_active(tracker: &ShaderProgressTracker) -> (r: bool)
    ensures
        r == tracker@.shows_compilation(),
{
    let progress = tracker.get_progress();
    (progress.total_shaders > 0 && !progress.is_complete)
        || tracker.is_pipeline_compilation_active()
}

/// The shaders that a simulated run compiles, in order.
pub open spec fn simulated_shaders() -> Seq<&'static str> {
    seq![
        "/shaders/rt/gbuffer.rchit.hlsl",
        "/shaders/rt/reference_path_trace.rgen.hlsl",
        "/shaders/light_gbuffer.hlsl",
        "/shaders/sky/comp_cube.hlsl",
        "/shaders/dof/coc.hlsl",
        "/shaders/taa/reproject_history.hlsl",
        "/shaders/tonemap/luminance_histogram.hlsl",
        "/shaders/post/post_combine.hlsl",
        "/shaders/rt/shadow.rchit.hlsl",
        "/shaders/atmosphere/comp_transmittance.hlsl",
        "rust::gbuffer_cs",
        "rust::ssgi_cs",
        "rust::reflection_cs",
        "rust::temporal_upsampling_cs",
        "rust::bloom_downsample_cs",
    ]
}

/// The shaders that a simulated run compiles, in order.
pub fn simulation_shaders() -> (r: Vec<&'static str>)
    ensures
        r@ == simulated_shaders(),
        r@.len() == SIMULATION_SHADER_COUNT,
{
    let mut shaders: Vec<&'static str> = Vec::new();
    shaders.push("/shaders/rt/gbuffer.rchit.hlsl");
    shaders.push("/shaders/rt/reference_path_trace.rgen.hlsl");
    shaders.push("/shaders/light_gbuffer.hlsl");
    shaders.push("/shaders/sky/comp_cube.hlsl");
    shaders.push("/shaders/dof/coc.hlsl");
    shaders.push("/shaders/taa/reproject_history.hlsl");
    shaders.push("/shaders/tonemap/luminance_histogram.hlsl");
    shaders.push("/shaders/post/post_combine.hlsl");
    shaders.push("/shaders/rt/shadow.rchit.hlsl");
    shaders.push("/shaders/atmosphere/comp_transmittance.hlsl");
    shaders.push("rust::gbuffer_cs");
    shaders.push("rust::ssgi_cs");
    shaders.push("rust::reflection_cs");
    shaders.push("rust::temporal_upsampling_cs");
    shaders.push("rust::bloom_downsample_cs");
    assert(shaders@ =~= simulated_shaders());
    shaders
}

/// The time, in milliseconds, that the simulation takes for the shader
/// with the given number.
pub fn simulated_compilation_millis(index: u32) -> (r: u64)
    ensures
        r == simulated_time_of(index),
        1000 <= r,
{
    let i: u64 = index as u64;
    1000 + i * 200 + (i * 123) % 1000
}

/// Starts a simulated run, unless a real one is under way: simulation mode
/// is switched on and the given shaders are registered. Says whether the
/// simulation started.
pub fn simulate_shader_compilation(
    tracker: &mut ShaderProgressTracker,
    shaders: &Vec<&'static str>,
) -> (started: bool)
    ensures
        started == !old(tracker)@.real_run_under_way(),
        final(tracker)@ == if started {
            old(tracker)@.set_simulation_mode(true).register_all(shaders@)
        } else {
            old(tracker)@
        },
{
    let under_way = {
        let progress = tracker.get_progress();
        progress.total_shaders > 0 && !progress.is_simulation_mode
    };
    if under_way {
        return false;
    }
    tracker.set_simulation_mode(true);
    let ghost start = tracker@;
    let mut i: usize = 0;
    assert(shaders@.subrange(0, 0) =~= Seq::empty());
    while i < shaders.len()
        invariant
            i <= shaders.len(),
            tracker@ == start.register_all(shaders@.subrange(0, i as int)),
        decreases shaders.len() - i,
    {
        proof {
            let next = shaders@.subrange(0, i + 1);
            assert(next.drop_last() =~= shaders@.subrange(0, i as int));
            assert(next.last() == shaders@[i as int]);
        }
        tracker.register_shader(shaders[i]);
        i += 1;
    }
    assert(shaders@.subrange(0, i as int) =~= shaders@);
    true
}

/// Checks on a finished simulation for the given time, and says whether
/// the waiting ends: a real run has taken over, or the limit of checks is
/// reached, in which case pipeline compilation is switched off.
pub fn monitor_simulation(tracker: &mut ShaderProgressTracker, checks: u32) -> (ends: bool)
    ensures
        ends == old(tracker)@.simulation_monitoring_ends(checks),
        final(tracker)@ == old(tracker)@.monitor_simulation(checks),
{
    let simulating = tracker.get_progress().is_simulation_mode;
    if !simulating {
        true
    } else if checks >= SIMULATION_MONITORING_LIMIT {
        tracker.set_pipeline_compilation_active(false);
        true
    } else {
        false
    }
}

/// What the progress window says about the kind of run.
#[derive(Debug, Clone, Copy, PartialEq, Eq, Structural)]
pub enum CompilationNote {
    /// The run is simulated; a real one may follow.
    Simulation,
    /// A real run is under way.
    RealRun,
    /// Nothing is to be said.
    Nothing,
}

impl TrackerView {
    /// Whether the progress window is shown: a run is under way, or
    /// pipeline compilation is active before any shader was registered.
    pub open spec fn popup_visible(self) -> bool {
        self.compilation_active() || (self.progress.total_shaders == 0
            && self.pipeline_compilation_active)
    }

    /// The line of the progress window: the status of the run once shaders
    /// are registered; before that, that compilation is being prepared or
    /// waited for.
    pub open spec fn popup_status(self) -> Seq<char> {
        if self.progress.total_shaders > 0 {
            self.progress.status_text()
        } else if self.pipeline_compilation_active {
            "Preparing shader compilation..."@
        } else {
            "Waiting for shader compilation to start..."@
        }
    }

    /// What the progress window says about the kind of run.
    pub open spec fn note(self) -> CompilationNote {
        if self.progress.is_simulation_mode {
            CompilationNote::Simulation
        } else if self.progress.total_shaders > 0 {
            CompilationNote::RealRun
        } else {
            CompilationNote::Nothing
        }
    }
}

/// Whether the progress window is shown.
pub fn should_show_compilation_popup(tracker: &ShaderProgressTracker) -> (r: bool)
    ensures
        r == tracker@.popup_visible(),
{
    let progress = tracker.get_progress();
    (progress.total_shaders > 0 && !progress.is_complete) || (progress.total_shaders == 0
        && tracker.is_pipeline_compilation_active())
}

/// The line of the progress window.
pub fn popup_status_text(tracker: &ShaderProgressTracker) -> (r: String)
    ensures
        r@ == tracker@.popup_status(),
{
    let progress = tracker.get_progress();
    if progress.total_shaders > 0 {
        progress.status_text()
    } else if tracker.is_pipeline_compilation_active() {
        String::from_str("Preparing shader compilation...")
    } else {
        String::from_str("Waiting for shader compilation to start...")
    }
}

/// What the progress window says about the kind of run.
pub fn compilation_note(tracker: &ShaderProgressTracker) -> (r: CompilationNote)
    ensures
        r == tracker@.note(),
{
    let progress = tracker.get_progress();
    if progress.is_simulation_mode {
        CompilationNote::Simulation
    } else if progress.total_shaders > 0 {
        CompilationNote::RealRun
    } else {
        CompilationNote::Nothing
    }
}

} // verus!
