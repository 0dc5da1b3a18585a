//! The renderer: the state that the host's calls change, and the plans
//! that tell the host what to do with the device. The renderer owns no
//! device resource but the pipelines it is handed; it decides, the host
//! performs.

use crate::channel::{
    channel_from_image, channel_from_radiance, decoded_view, image_channel_spec, outcome_view,
    radiance_channel_spec, radiance_view, ChannelTexture, ChannelUpload, ColourSpace, DecodeError,
    DecodedImage, RadianceImage, NUM_CHANNELS,
};
use crate::errors::{
    count_newlines, device_error_report, device_report_spec, newline_count, parse_error_report,
    regex_captures, row_in_shader, ErrorReport, ErrorReportView, DEVICE_ERROR_PATTERN,
};
use crate::frame::{
    dispatches_spec, plan_dispatches, plan_readback, readback_spec, skipped_spec, stage_uniforms,
    uploads_spec, FramePlan, FramePlanView,
};
use crate::keys::{Keys, NUM_KEYCODES};
use crate::layout::{
    bind_group_spec, compute_bind_group_layout_entries, create_compute_bind_group,
    layout_entries_spec, BindGroupEntry, BindGroupLayoutEntry, FilterMode, TextureFormat,
};
use crate::pipeline::{
    load_error, passes_of, DeviceError, Pass, PipelineManager, PipelineSets, Rollback,
};
use crate::resources::{
    buffer_of, create_uniforms, uniforms_spec, viewport_fits, Uniforms, MAX_CUSTOM_PARAMS,
    PASS_LAYERS,
};
use crate::shader::{
    compile, compile_spec, compute_stage, entry_point_names, parsed_view, prelude, prelude_text,
    shader_source, shader_text, CompileOutcome, CompiledShader, EntryPoint, EntryPointView,
    ParseError, ParseFailure, SourceLocation, CUSTOM_PLACEHOLDER,
};
use crate::uniforms::{lemma_words_le_len, Mouse, Time};
use vstd::prelude::*;

verus! {

/// How the screen texture is brought onto the surface.
#[derive(Clone, Copy, Debug, PartialEq, Eq, Structural)]
pub struct ScreenBlit {
    pub colour_space: ColourSpace,
    pub filter: FilterMode,
}

/// Everything that the host allocates for a viewport: the uniform set,
/// the bind group layout, the bind group over both, and the blit of the
/// screen texture. Where the precision mode has changed, the pipelines
/// built for the old layout are gone and the host compiles the shader
/// again.
#[derive(Debug)]
pub struct ResourcePlan {
    pub width: u32,
    pub height: u32,
    pub uniforms: Uniforms,
    pub layout: [BindGroupLayoutEntry; 14],
    pub bind_group: [BindGroupEntry; 14],
    pub screen_blit: ScreenBlit,
    pub reload_shader: bool,
}

/// The blit of the screen texture onto the surface.
pub open spec fn screen_blit_spec() -> ScreenBlit {
    ScreenBlit { colour_space: ColourSpace::Linear, filter: FilterMode::Nearest }
}

/// The renderer. `P` is the host's handle of a compute pipeline, `F` its
/// handle of a callback.
pub struct WgpuToyRenderer<P, F> {
    screen_width: u32,
    screen_height: u32,
    time: Time,
    mouse: Mouse,
    keys: Keys,
    custom_names: Vec<String>,
    custom_values: Vec<u32>,
    pipelines: PipelineManager<P>,
    pass_f32: bool,
    layout_f32: bool,
    channels: [ChannelTexture; 2],
    timestamp_queries: bool,
    pending_rollback: bool,
    on_error_cb: Option<F>,
    on_success_cb: Option<F>,
    device_prelude_len: usize,
}

/// The renderer as a value.
pub struct RendererState<P, F> {
    pub width: u32,
    pub height: u32,
    pub time: Time,
    pub mouse: Mouse,
    pub keys: Seq<bool>,
    pub custom_names: Seq<Seq<char>>,
    pub custom_values: Seq<u32>,
    pub pipelines: PipelineSets<P>,
    /// The precision mode asked for: the next prelude and the next
    /// resize go by it.
    pub pass_f32: bool,
    /// The precision mode of the textures and the layout that are bound.
    pub layout_f32: bool,
    pub channels: Seq<ChannelTexture>,
    pub timestamp_queries: bool,
    pub pending_rollback: bool,
    pub on_error: Option<F>,
    pub on_success: Option<F>,
    pub device_prelude_len: usize,
}

/// The texture of a channel that nothing was loaded into.
pub open spec fn blank_channel() -> ChannelTexture {
    ChannelTexture { width: 1, height: 1, mip_level_count: 1, format: TextureFormat::Rgba8UnormSrgb }
}

impl<P, F> RendererState<P, F> {
    /// A renderer as it starts: frame zero, no key down, the placeholder
    /// as its one custom parameter, half precision, no shader loaded,
    /// blank channels, no callback.
    pub open spec fn initial(width: u32, height: u32) -> Self {
        RendererState {
            width,
            height,
            time: Time { frame: 0, elapsed: 0 },
            mouse: Mouse { x: 0, y: 0, click: false },
            keys: Seq::new(NUM_KEYCODES as nat, |code: int| false),
            custom_names: seq![CUSTOM_PLACEHOLDER@],
            custom_values: seq![0u32],
            pipelines: PipelineSets::empty(),
            pass_f32: false,
            layout_f32: false,
            channels: seq![blank_channel(), blank_channel()],
            timestamp_queries: false,
            pending_rollback: false,
            on_error: None,
            on_success: None,
            device_prelude_len: 0,
        }
    }

    /// What holds of every renderer: the viewport can be addressed, the
    /// custom parameters fit their block, and both pipeline sets can be
    /// run and were built for the layout that is bound.
    pub open spec fn wf(self) -> bool {
        &&& viewport_fits(self.width, self.height)
        &&& self.keys.len() == NUM_KEYCODES
        &&& self.custom_names.len() <= MAX_CUSTOM_PARAMS
        &&& self.custom_values.len() <= MAX_CUSTOM_PARAMS
        &&& self.channels.len() == NUM_CHANNELS
        &&& self.pipelines.wf()
        &&& self.pipelines.fits(self.layout_f32)
    }

    /// The prelude that the renderer generates.
    pub open spec fn prelude(self) -> Seq<char> {
        prelude_text(self.custom_names, self.pass_f32)
    }

    /// What a compile makes of a user text and of the parser's answer
    /// for prelude and text.
    pub open spec fn compiled(
        self,
        text: Seq<char>,
        parsed: Result<Seq<EntryPointView>, (Seq<char>, Option<SourceLocation>)>,
    ) -> CompileOutcome {
        compile_spec(shader_text(self.custom_names, self.pass_f32, text), self.pass_f32, parsed)
    }

    /// Whether a resize changes the precision mode of what is bound.
    pub open spec fn precision_changes(self) -> bool {
        self.pass_f32 != self.layout_f32
    }

    /// A new viewport: the frame counter starts again, and textures and
    /// layout take the precision mode asked for. Where that is another
    /// mode than before, the pipelines built for the old layout are
    /// dropped, those to fall back on too.
    pub open spec fn resized(self, width: u32, height: u32) -> Self {
        RendererState {
            width,
            height,
            time: Time { frame: 0, elapsed: self.time.elapsed },
            layout_f32: self.pass_f32,
            pipelines: if self.precision_changes() {
                PipelineSets::empty()
            } else {
                self.pipelines
            },
            ..self
        }
    }

    /// Pipelines for a compiled shader become the current set.
    pub open spec fn loaded(
        self,
        entry_points: Seq<EntryPointView>,
        pipelines: Seq<P>,
        timestamp_queries: bool,
    ) -> Self {
        RendererState {
            pipelines: self.pipelines.swap(passes_of(entry_points, pipelines, self.layout_f32)),
            timestamp_queries,
            ..self
        }
    }

    /// A rollback is asked for, to be done at the next frame.
    pub open spec fn flagged(self) -> Self {
        RendererState { pending_rollback: true, ..self }
    }

    /// The pipeline sets that the next frame runs with: the sets as they
    /// are, or rolled back where that is pending.
    pub open spec fn sets_to_run(self) -> PipelineSets<P> {
        if self.pending_rollback {
            self.pipelines.revert()
        } else {
            self.pipelines
        }
    }

    /// The renderer after a frame: a pending rollback is done, the frame
    /// counter has moved on.
    pub open spec fn rendered(self) -> Self {
        RendererState {
            pipelines: self.sets_to_run(),
            pending_rollback: false,
            time: Time { frame: (self.time.frame + 1) as u32, elapsed: self.time.elapsed },
            ..self
        }
    }

    /// The plan of the next frame.
    pub open spec fn frame_plan(self) -> FramePlanView {
        FramePlanView {
            frame: self.time.frame,
            uploads: uploads_spec(self.custom_values, self.time, self.mouse, self.keys),
            skipped: skipped_spec(self.custom_values),
            rollback: if self.pending_rollback {
                Some(
                    if self.pipelines.previous is Some {
                        Rollback::Restored
                    } else {
                        Rollback::NothingToRestore
                    },
                )
            } else {
                None
            },
            dispatches: dispatches_spec(
                self.sets_to_run().current,
                self.width,
                self.height,
                self.timestamp_queries,
            ),
            copy_extent: (self.width, self.height, PASS_LAYERS),
            readback: readback_spec(
                self.time.frame,
                self.sets_to_run().current.len(),
                self.timestamp_queries,
                self.width,
                self.height,
            ),
        }
    }

    /// A channel slot takes a new texture; the other slot keeps its own.
    pub open spec fn with_channel(self, index: int, texture: ChannelTexture) -> Self {
        RendererState { channels: self.channels.update(index, texture), ..self }
    }
}

impl<P, F> View for WgpuToyRenderer<P, F> {
    type V = RendererState<P, F>;

    closed spec fn view(&self) -> RendererState<P, F> {
        RendererState {
            width: self.screen_width,
            height: self.screen_height,
            time: self.time,
            mouse: self.mouse,
            keys: self.keys@,
            custom_names: self.custom_names.deep_view(),
            custom_values: self.custom_values@,
            pipelines: self.pipelines@,
            pass_f32: self.pass_f32,
            layout_f32: self.layout_f32,
            channels: self.channels@,
            timestamp_queries: self.timestamp_queries,
            pending_rollback: self.pending_rollback,
            on_error: self.on_error_cb,
            on_success: self.on_success_cb,
            device_prelude_len: self.device_prelude_len,
        }
    }
}

impl<P, F> WgpuToyRenderer<P, F> {
    /// What holds of every renderer: `new` gives one of which it holds,
    /// and every function below keeps it.
    pub open spec fn wf(&self) -> bool {
        self@.wf()
    }

    /// A renderer for a viewport.
    pub fn new(width: u32, height: u32) -> (renderer: Self)
        requires
            viewport_fits(width, height),
        ensures
            renderer.wf(),
            renderer@ == RendererState::<P, F>::initial(width, height),
    {
        let mut custom_names: Vec<String> = Vec::new();
        custom_names.push(CUSTOM_PLACEHOLDER.to_owned());
        let mut custom_values: Vec<u32> = Vec::new();
        custom_values.push(0);
        let blank = ChannelTexture {
            width: 1,
            height: 1,
            mip_level_count: 1,
            format: TextureFormat::Rgba8UnormSrgb,
        };
        let renderer = WgpuToyRenderer {
            screen_width: width,
            screen_height: height,
            time: Time { frame: 0, elapsed: 0 },
            mouse: Mouse { x: 0, y: 0, click: false },
            keys: Keys::new(),
            custom_names,
            custom_values,
            pipelines: PipelineManager::new(),
            pass_f32: false,
            layout_f32: false,
            channels: [blank, blank],
            timestamp_queries: false,
            pending_rollback: false,
            on_error_cb: None,
            on_success_cb: None,
            device_prelude_len: 0,
        };
        assert(renderer@.keys =~= Seq::new(NUM_KEYCODES as nat, |code: int| false));
        assert(renderer@.custom_names =~= seq![CUSTOM_PLACEHOLDER@]);
        assert(renderer@.custom_values =~= seq![0u32]);
        assert(renderer@.channels =~= seq![blank_channel(), blank_channel()]);
        renderer
    }

    /// What is bound for the viewport: asked for once after `new`, and
    /// handed out anew by every `resize`. A channel load replaces one
    /// texture and the host builds the bind group again from the same
    /// entries; a shader reload replaces none of this.
    pub fn resources(&self) -> (plan: ResourcePlan)
        requires
            self.wf(),
        ensures
            plan.width == self@.width,
            plan.height == self@.height,
            plan.uniforms == uniforms_spec(self@.width, self@.height, self@.layout_f32),
            plan.layout@ == layout_entries_spec(self@.layout_f32),
            plan.bind_group@ == bind_group_spec(),
            plan.screen_blit == screen_blit_spec(),
            !plan.reload_shader,
    {
        ResourcePlan {
            width: self.screen_width,
            height: self.screen_height,
            uniforms: create_uniforms(self.screen_width, self.screen_height, self.layout_f32),
            layout: compute_bind_group_layout_entries(self.layout_f32),
            bind_group: create_compute_bind_group(),
            screen_blit: ScreenBlit {
                colour_space: ColourSpace::Linear,
                filter: FilterMode::Nearest,
            },
            reload_shader: false,
        }
    }

    /// Decides on a frame. With no surface image to draw to, the frame is
    /// left out and nothing changes, a pending rollback stays pending.
    /// Otherwise the frame is planned as `render_to` plans it.
    pub fn render(&mut self, frame_acquired: bool) -> (plan: Option<FramePlan>)
        requires
            old(self).wf(),
            frame_acquired ==> old(self)@.time.frame < u32::MAX,
        ensures
            final(self).wf(),
            match plan {
                Some(frame) => frame_acquired && frame@ == old(self)@.frame_plan() && final(self)@
                    == old(self)@.rendered(),
                None => !frame_acquired && final(self)@ == old(self)@,
            },
    {
        if frame_acquired {
            Some(self.render_to())
        } else {
            None
        }
    }

    /// Plans one frame and moves on to the next. The plan stages the
    /// uniform data as it stands, with the frame counter before it is
    /// raised. A pending rollback is done first, so that the passes of
    /// the plan are those of the set that is current after it. Each pass
    /// is dispatched over the grid that covers the viewport. Every
    /// hundredth frame schedules a readback of the assertion counters.
    pub fn render_to(&mut self) -> (plan: FramePlan)
        requires
            old(self).wf(),
            old(self)@.time.frame < u32::MAX,
        ensures
            final(self).wf(),
            plan@ == old(self)@.frame_plan(),
            final(self)@ == old(self)@.rendered(),
    {
        let (uploads, skipped) = stage_uniforms(
            &self.custom_values,
            &self.time,
            &self.mouse,
            &self.keys,
        );
        let rollback: Option<Rollback> = if self.pending_rollback {
            self.pending_rollback = false;
            Some(self.pipelines.rollback())
        } else {
            None
        };
        let passes = self.pipelines.current_passes();
        let dispatches = plan_dispatches(
            passes,
            self.screen_width,
            self.screen_height,
            self.timestamp_queries,
        );
        let readback = plan_readback(
            self.time.frame,
            passes.len(),
            self.timestamp_queries,
            self.screen_width,
            self.screen_height,
        );
        let frame: u32 = self.time.frame;
        self.time.frame = frame + 1;
        FramePlan {
            frame,
            uploads,
            skipped,
            rollback,
            dispatches,
            copy_extent: (self.screen_width, self.screen_height, PASS_LAYERS),
            readback,
        }
    }

    /// The prelude for the custom parameters and the precision mode as
    /// they stand.
    pub fn prelude(&self) -> (text: String)
        ensures
            text@ == self@.prelude(),
    {
        prelude(&self.custom_names, self.pass_f32)
    }

    /// The text that the host parses for a user text: the prelude as it
    /// stands, then the user's text.
    pub fn shader_source(&self, shader: &str) -> (wgsl: String)
        ensures
            wgsl@ == self@.prelude() + shader@,
    {
        shader_source(shader, &self.custom_names, self.pass_f32)
    }

    /// Compiles the user's text from the answer that the host's parser
    /// gave for `shader_source` of it. A text that parsed gives the
    /// compiled shader, with its compute entry points in the order of
    /// their declaration; the host builds a pipeline for each and hands
    /// them to `load`. A text that did not parse gives the report for the
    /// error callback, its row moved into the user's text. The renderer
    /// itself does not change: a parse error never touches the running
    /// pipelines.
    pub fn set_shader(&self, shader: &str, parsed: Result<Vec<EntryPoint>, ParseFailure>) -> (compiled:
        Result<CompiledShader, ErrorReport>)
        ensures
            match self@.compiled(shader@, parsed_view(parsed)) {
                CompileOutcome::Compiled(wgsl, entry_points, pass_f32) => {
                    &&& compiled matches Ok(module)
                    &&& module.wgsl@ == wgsl
                    &&& module.entry_points.deep_view() == entry_points
                    &&& module.pass_f32 == pass_f32
                },
                CompileOutcome::Rejected(summary, row, column, offset) => {
                    &&& compiled matches Err(report)
                    &&& report@ == (ErrorReportView {
                        summary,
                        row: row_in_shader(row, newline_count(self@.prelude()) as usize),
                        column,
                    })
                },
            },
    {
        match compile(shader, &self.custom_names, self.pass_f32, parsed) {
            Ok(module) => Ok(module),
            Err(error) => Err(self.handle_error(error)),
        }
    }

    /// Reports a parse error to the host: the lines of the prelude as it
    /// stands are taken off the row.
    pub fn handle_error(&self, error: ParseError) -> (report: ErrorReport)
        ensures
            report.summary@ == error.summary@,
            report.row == row_in_shader(error.row, newline_count(self@.prelude()) as usize),
            report.column == error.column,
    {
        let prelude_len = count_newlines(self.prelude().as_str());
        parse_error_report(error, prelude_len)
    }

    /// The names to report to the host after a successful compile: those
    /// of the compute entry points, in the order of their declaration.
    pub fn handle_success(&self, module: &CompiledShader) -> (names: Vec<String>)
        ensures
            names.deep_view() == entry_point_names(module.entry_points.deep_view()),
    {
        let mut names: Vec<String> = Vec::new();
        let mut i: usize = 0;
        while i < module.entry_points.len()
            invariant
                i <= module.entry_points.len(),
                names.deep_view() =~= entry_point_names(
                    module.entry_points.deep_view().take(i as int),
                ),
            decreases module.entry_points.len() - i,
        {
            let ghost before = names.deep_view();
            names.push(module.entry_points[i].name.clone());
            assert(names.deep_view() =~= before.push(module.entry_points[i as int].name@));
            i = i + 1;
        }
        assert(module.entry_points.deep_view().take(i as int) =~= module.entry_points.deep_view());
        names
    }

    /// Loads the pipelines that the host built for a compiled shader, one
    /// for each entry point in order. On success they become the current
    /// set, the set they replace is kept for a rollback, and the result is
    /// the number of timestamp queries to provide, two for each pass,
    /// where the device takes timestamps. On failure nothing changes. A
    /// shader compiled for another precision mode than that of the layout
    /// that is bound is refused.
    pub fn load(
        &mut self,
        shader: &CompiledShader,
        pipelines: Vec<P>,
        timestamp_queries: bool,
    ) -> (loaded: Result<Option<u32>, DeviceError>)
        requires
            old(self).wf(),
        ensures
            final(self).wf(),
            match loaded {
                Ok(query_count) => {
                    &&& load_error(
                        shader.entry_points.deep_view(),
                        pipelines@.len(),
                        shader.pass_f32,
                        old(self)@.layout_f32,
                    ) is None
                    &&& final(self)@ == old(self)@.loaded(
                        shader.entry_points.deep_view(),
                        pipelines@,
                        timestamp_queries,
                    )
                    &&& final(self)@.pipelines.current.len() == shader.entry_points@.len()
                    &&& query_count == if timestamp_queries {
                        Some((2 * pipelines@.len()) as u32)
                    } else {
                        None
                    }
                },
                Err(error) => {
                    &&& load_error(
                        shader.entry_points.deep_view(),
                        pipelines@.len(),
                        shader.pass_f32,
                        old(self)@.layout_f32,
                    ) == Some(error)
                    &&& final(self)@ == old(self)@
                },
            },
    {
        let count: usize = pipelines.len();
        match self.pipelines.load(shader, pipelines, self.layout_f32) {
            Ok(()) => {
                self.timestamp_queries = timestamp_queries;
                if timestamp_queries {
                    Ok(Some(2 * (count as u32)))
                } else {
                    Ok(None)
                }
            },
            Err(error) => Err(error),
        }
    }

    /// Sets the elapsed seconds, given as the bits of a 32-bit float.
    pub fn set_time_elapsed(&mut self, t: u32)
        ensures
            final(self)@ == (RendererState {
                time: Time { frame: old(self)@.time.frame, elapsed: t },
                ..old(self)@
            }),
    {
        self.time.elapsed = t;
    }

    /// Sets the position of the mouse.
    pub fn set_mouse_pos(&mut self, x: u32, y: u32)
        ensures
            final(self)@ == (RendererState {
                mouse: Mouse { x, y, click: old(self)@.mouse.click },
                ..old(self)@
            }),
    {
        self.mouse.x = x;
        self.mouse.y = y;
    }

    /// Sets whether the mouse button is down.
    pub fn set_mouse_click(&mut self, click: bool)
        ensures
            final(self)@ == (RendererState {
                mouse: Mouse { x: old(self)@.mouse.x, y: old(self)@.mouse.y, click },
                ..old(self)@
            }),
    {
        self.mouse.click = click;
    }

    /// Records that a key went down or up.
    pub fn set_keydown(&mut self, keycode: usize, keydown: bool)
        requires
            old(self).wf(),
            keycode < NUM_KEYCODES,
        ensures
            final(self).wf(),
            final(self)@ == (RendererState {
                keys: old(self)@.keys.update(keycode as int, keydown),
                ..old(self)@
            }),
    {
        self.keys.set(keycode, keydown);
    }

    /// Replaces the custom parameters: their names, which the next
    /// prelude declares, and their values, given as the bits of 32-bit
    /// floats, which the next frame stages. The custom block has room for
    /// sixteen.
    pub fn set_custom_floats(&mut self, names: Vec<String>, values: Vec<u32>)
        requires
            names@.len() <= MAX_CUSTOM_PARAMS,
            values@.len() <= MAX_CUSTOM_PARAMS,
        ensures
            final(self)@ == (RendererState {
                custom_names: names.deep_view(),
                custom_values: values@,
                ..old(self)@
            }),
    {
        self.custom_names = names;
        self.custom_values = values;
    }

    /// Chooses the precision of the pass textures. The next prelude and
    /// the next resize go by it.
    pub fn set_pass_f32(&mut self, pass_f32: bool)
        ensures
            final(self)@ == (RendererState { pass_f32, ..old(self)@ }),
    {
        self.pass_f32 = pass_f32;
    }

    /// Takes a new viewport. The frame counter starts again at zero, and
    /// the plan describes every resource of the viewport anew, in the
    /// precision mode asked for. Where that is another mode than before,
    /// both pipeline sets are dropped, since they were built for the old
    /// layout, and the plan tells the host to compile the shader again.
    pub fn resize(&mut self, width: u32, height: u32) -> (plan: ResourcePlan)
        requires
            old(self).wf(),
            viewport_fits(width, height),
        ensures
            final(self).wf(),
            final(self)@ == old(self)@.resized(width, height),
            plan.width == width,
            plan.height == height,
            plan.uniforms == uniforms_spec(width, height, old(self)@.pass_f32),
            plan.layout@ == layout_entries_spec(old(self)@.pass_f32),
            plan.bind_group@ == bind_group_spec(),
            plan.screen_blit == screen_blit_spec(),
            plan.reload_shader == old(self)@.precision_changes(),
    {
        let reload_shader = self.pass_f32 != self.layout_f32;
        if reload_shader {
            self.pipelines.clear();
            self.layout_f32 = self.pass_f32;
        }
        self.screen_width = width;
        self.screen_height = height;
        self.time.frame = 0;
        let plan = self.resources();
        ResourcePlan { reload_shader, ..plan }
    }

    /// Registers the handler of errors, in place of the one registered
    /// before. The result is the number of lines of the prelude as it
    /// stands, by which the rows of device errors are corrected from now
    /// on.
    pub fn on_error(&mut self, callback: F) -> (prelude_len: usize)
        ensures
            prelude_len == newline_count(old(self)@.prelude()),
            final(self)@ == (RendererState {
                on_error: Some(callback),
                device_prelude_len: prelude_len,
                ..old(self)@
            }),
    {
        let prelude_len = count_newlines(self.prelude().as_str());
        self.on_error_cb = Some(callback);
        self.device_prelude_len = prelude_len;
        prelude_len
    }

    /// Registers the handler of successful reloads, in place of the one
    /// registered before.
    pub fn on_success(&mut self, callback: F)
        ensures
            final(self)@ == (RendererState { on_success: Some(callback), ..old(self)@ }),
    {
        self.on_success_cb = Some(callback);
    }

    /// Reads a message of the device's error channel. A message of the
    /// recognised shape gives the report for the error callback and asks
    /// for a rollback at the next frame. Any other message gives none and
    /// changes nothing.
    pub fn device_error(&mut self, message: &str) -> (report: Option<ErrorReport>)
        ensures
            report.deep_view() == device_report_spec(
                regex_captures(DEVICE_ERROR_PATTERN@, message@),
                old(self)@.device_prelude_len,
            ),
            report is Some ==> final(self)@ == old(self)@.flagged(),
            report is None ==> final(self)@ == old(self)@,
    {
        let report = device_error_report(message, self.device_prelude_len);
        if report.is_some() {
            self.pending_rollback = true;
        }
        report
    }

    /// Asks for a rollback at the next frame.
    pub fn request_rollback(&mut self)
        ensures
            final(self)@ == old(self)@.flagged(),
    {
        self.pending_rollback = true;
    }

    /// Makes a decoded image the texture of a channel. On success the
    /// slot holds the new texture and the result tells the host how to
    /// fill it. Where the decoder failed or the image cannot be a
    /// texture, both slots are as they were.
    pub fn load_channel(&mut self, index: usize, decoded: Result<DecodedImage, String>) -> (outcome:
        Result<ChannelUpload, DecodeError>)
        requires
            old(self).wf(),
            index < NUM_CHANNELS,
        ensures
            final(self).wf(),
            outcome_view(outcome) == image_channel_spec(decoded_view(decoded)),
            match outcome {
                Ok(upload) => final(self)@ == old(self)@.with_channel(index as int, upload.texture),
                Err(_) => final(self)@ == old(self)@,
            },
    {
        let outcome = channel_from_image(decoded);
        self.install(index, outcome)
    }

    /// Makes a decoded radiance image the texture of a channel, as
    /// `load_channel` does.
    pub fn load_channel_hdr(
        &mut self,
        index: usize,
        decoded: Result<RadianceImage, String>,
    ) -> (outcome: Result<ChannelUpload, DecodeError>)
        requires
            old(self).wf(),
            index < NUM_CHANNELS,
        ensures
            final(self).wf(),
            outcome_view(outcome) == radiance_channel_spec(radiance_view(decoded)),
            match outcome {
                Ok(upload) => final(self)@ == old(self)@.with_channel(index as int, upload.texture),
                Err(_) => final(self)@ == old(self)@,
            },
    {
        let outcome = channel_from_radiance(decoded);
        self.install(index, outcome)
    }

    fn install(
        &mut self,
        index: usize,
        outcome: Result<ChannelUpload, DecodeError>,
    ) -> (passed: Result<ChannelUpload, DecodeError>)
        requires
            old(self).wf(),
            index < NUM_CHANNELS,
        ensures
            final(self).wf(),
            passed == outcome,
            match outcome {
                Ok(upload) => final(self)@ == old(self)@.with_channel(index as int, upload.texture),
                Err(_) => final(self)@ == old(self)@,
            },
    {
        match outcome {
            Ok(upload) => {
                self.channels[index] = upload.texture;
                Ok(upload)
            },
            Err(error) => Err(error),
        }
    }

    /// The passes that serve frames, in the order in which they run.
    pub fn current_passes(&self) -> (passes: &[Pass<P>])
        ensures
            passes@ == self@.pipelines.current,
    {
        self.pipelines.current_passes()
    }

    /// The handler of errors, if one is registered.
    pub fn error_callback(&self) -> (callback: Option<&F>)
        ensures
            match callback {
                Some(handler) => self@.on_error == Some(*handler),
                None => self@.on_error is None,
            },
    {
        match &self.on_error_cb {
            Some(handler) => Some(handler),
            None => None,
        }
    }

    /// The handler of successful reloads, if one is registered.
    pub fn success_callback(&self) -> (callback: Option<&F>)
        ensures
            match callback {
                Some(handler) => self@.on_success == Some(*handler),
                None => self@.on_success is None,
            },
    {
        match &self.on_success_cb {
            Some(handler) => Some(handler),
            None => None,
        }
    }

    /// The frame counter.
    pub fn frame(&self) -> (frame: u32)
        ensures
            frame == self@.time.frame,
    {
        self.time.frame
    }

    /// Width and height of the viewport.
    pub fn size(&self) -> (size: (u32, u32))
        ensures
            size == (self@.width, self@.height),
    {
        (self.screen_width, self.screen_height)
    }

    /// The texture that a channel slot holds.
    pub fn channel(&self, index: usize) -> (texture: ChannelTexture)
        requires
            self.wf(),
            index < NUM_CHANNELS,
        ensures
            texture == self@.channels[index as int],
    {
        self.channels[index]
    }

    /// Whether a rollback is pending.
    pub fn rollback_pending(&self) -> (pending: bool)
        ensures
            pending == self@.pending_rollback,
    {
        self.pending_rollback
    }
}

/// After a shader was compiled and loaded, the current set has one pass
/// for each compute entry point that the parser found in prelude and
/// text, in the order of their declaration, each with its pipeline and
/// with the workgroup size that its entry point declares, and none for
/// an entry point of another stage.
pub proof fn lemma_one_pass_for_each_compute_entry_point<P, F>(
    state: RendererState<P, F>,
    text: Seq<char>,
    parsed: Seq<EntryPointView>,
    pipelines: Seq<P>,
    timestamp_queries: bool,
)
    requires
        load_error(compute_stage(parsed), pipelines.len(), state.pass_f32, state.layout_f32)
            is None,
    ensures
        state.compiled(text, Ok(parsed)) == CompileOutcome::Compiled(
            state.prelude() + text,
            compute_stage(parsed),
            state.pass_f32,
        ),
        ({
            let declared = compute_stage(parsed);
            let current = state.loaded(declared, pipelines, timestamp_queries).pipelines.current;
            &&& current.len() == declared.len()
            &&& forall|i: int|
                0 <= i < current.len() ==> (#[trigger] current[i]).workgroup_size
                    == declared[i].workgroup_size && current[i].pipeline == pipelines[i]
        }),
{
}

/// Reloading the same text leaves the list of entry points and the number
/// of pipelines as they are. A load changes neither the custom parameters
/// nor the precision mode, so the same answer of the parser compiles to
/// the same outcome, whatever was loaded in between; and the set loaded
/// for it the second time has one pass for each pass of the first, with
/// the same workgroup sizes, while the first set is the one to fall back
/// on.
pub proof fn lemma_reload_is_idempotent<P, F>(
    state: RendererState<P, F>,
    text: Seq<char>,
    parsed: Result<Seq<EntryPointView>, (Seq<char>, Option<SourceLocation>)>,
    entry_points: Seq<EntryPointView>,
    first: Seq<P>,
    second: Seq<P>,
    timestamp_queries: bool,
)
    requires
        state.compiled(text, parsed) matches CompileOutcome::Compiled(_, compiled, _)
            && compiled == entry_points,
        first.len() == entry_points.len(),
        second.len() == entry_points.len(),
    ensures
        ({
            let once = state.loaded(entry_points, first, timestamp_queries);
            let twice = once.loaded(entry_points, second, timestamp_queries);
            &&& once.compiled(text, parsed) == state.compiled(text, parsed)
            &&& twice.compiled(text, parsed) == state.compiled(text, parsed)
            &&& once.pipelines.current.len() == entry_points.len()
            &&& twice.pipelines.current.len() == once.pipelines.current.len()
            &&& twice.pipelines.previous == Some(once.pipelines.current)
            &&& forall|i: int|
                0 <= i < entry_points.len() ==> (#[trigger] twice.pipelines.current[i]).workgroup_size
                    == once.pipelines.current[i].workgroup_size
        }),
{
}

/// When the device rejects a shader after it was loaded, the frame after
/// the error runs the set that was current before the load, and
/// dispatches its passes and no other.
pub proof fn lemma_rollback_restores_previous_set<P, F>(
    state: RendererState<P, F>,
    entry_points: Seq<EntryPointView>,
    pipelines: Seq<P>,
    timestamp_queries: bool,
)
    ensures
        ({
            let failed = state.loaded(entry_points, pipelines, timestamp_queries).flagged();
            &&& failed.rendered().pipelines.current == state.pipelines.current
            &&& failed.frame_plan().dispatches == dispatches_spec(
                state.pipelines.current,
                state.width,
                state.height,
                timestamp_queries,
            )
            &&& failed.frame_plan().rollback == Some(Rollback::Restored)
            &&& !failed.rendered().pending_rollback
        }),
{
}

/// A frame without a pending rollback leaves the pipeline sets alone.
pub proof fn lemma_frame_keeps_sets<P, F>(state: RendererState<P, F>)
    requires
        !state.pending_rollback,
    ensures
        state.rendered().pipelines == state.pipelines,
        state.frame_plan().rollback is None,
{
}

/// After a resize the next frame is frame zero, whatever was rendered
/// before, the viewport has the new width and height, and what the host
/// allocates has the size of the new viewport.
pub proof fn lemma_resize_restarts_frames<P, F>(state: RendererState<P, F>, width: u32, height: u32)
    ensures
        state.resized(width, height).time.frame == 0,
        state.resized(width, height).width == width,
        state.resized(width, height).height == height,
        state.resized(width, height).frame_plan().frame == 0,
        state.resized(width, height).frame_plan().copy_extent == (width, height, PASS_LAYERS),
        ({
            let uniforms = uniforms_spec(width, height, state.pass_f32);
            &&& viewport_fits(width, height) ==> uniforms.storage_buffer.size == 16 * width
                * height
            &&& uniforms.tex_read.width == width && uniforms.tex_read.height == height
            &&& uniforms.tex_write.width == width && uniforms.tex_write.height == height
            &&& uniforms.tex_screen.width == width && uniforms.tex_screen.height == height
        }),
{
    assert(16 * (width as int) * (height as int) == 16 * width * height);
}

/// After a resize every pass of both sets was built for the layout that
/// is now bound: a resize that changes the precision mode leaves no pass,
/// any other leaves the sets as they were.
pub proof fn lemma_resize_keeps_sets_consistent<P, F>(
    state: RendererState<P, F>,
    width: u32,
    height: u32,
)
    requires
        state.pipelines.fits(state.layout_f32),
    ensures
        ({
            let after = state.resized(width, height);
            &&& after.layout_f32 == state.pass_f32
            &&& after.pipelines.fits(after.layout_f32)
            &&& state.precision_changes() ==> after.pipelines == PipelineSets::<P>::empty()
            &&& !state.precision_changes() ==> after.pipelines == state.pipelines
        }),
{
}

/// Every upload of a frame holds a byte, goes to a buffer that can be
/// written, and fits it.
pub proof fn lemma_uploads_fit_buffers<P, F>(state: RendererState<P, F>, i: int)
    requires
        state.wf(),
        0 <= i < state.frame_plan().uploads.len(),
    ensures
        ({
            let upload = state.frame_plan().uploads[i];
            let buffer = buffer_of(
                uniforms_spec(state.width, state.height, state.layout_f32),
                upload.target,
            );
            &&& 0 < upload.bytes.len() <= buffer.size
            &&& buffer.usage.copy_dst
        }),
{
    lemma_words_le_len(state.custom_values);
}

/// Between two resizes the frame counter counts the frames.
pub proof fn lemma_frames_count_up<P, F>(state: RendererState<P, F>)
    requires
        state.time.frame < u32::MAX,
    ensures
        state.rendered().time.frame == state.time.frame + 1,
        state.rendered().frame_plan().frame == state.frame_plan().frame + 1,
{
}

/// A parse error on a line of the prelude is reported at row zero,
/// whatever the prelude: rows never fall below the user's text.
pub proof fn lemma_prelude_rows_report_zero<P, F>(state: RendererState<P, F>, row: usize)
    requires
        newline_count(state.prelude()) <= usize::MAX,
        row <= newline_count(state.prelude()),
    ensures
        row_in_shader(row, newline_count(state.prelude()) as usize) == 0,
{
}

/// Every change of state keeps what holds of every renderer.
pub proof fn lemma_changes_keep_wf<P, F>(
    state: RendererState<P, F>,
    entry_points: Seq<EntryPointView>,
    pipelines: Seq<P>,
    shader_f32: bool,
    timestamp_queries: bool,
    width: u32,
    height: u32,
    index: int,
    texture: ChannelTexture,
)
    requires
        state.wf(),
    ensures
        RendererState::<P, F>::initial(width, height).wf() <==> viewport_fits(width, height),
        viewport_fits(width, height) ==> state.resized(width, height).wf(),
        load_error(entry_points, pipelines.len(), shader_f32, state.layout_f32) is None
            ==> state.loaded(entry_points, pipelines, timestamp_queries).wf(),
        state.flagged().wf(),
        state.rendered().wf(),
        0 <= index < NUM_CHANNELS ==> state.with_channel(index, texture).wf(),
{
}

} // verus!
