//! Pipeline state: the per-component handle to a backend pipeline, the
//! descriptions a pipeline instance is built from, and the draw/compute
//! call arguments.

use vstd::prelude::*;

use crate::assets::Shader;
use crate::bindings::ConcreteBindGroup;
use crate::renderer::{Context, Renderer};

verus! {

/// Pipeline bindings: the bind groups loaded on the backend.
pub struct Bindings {
    /// How many bind groups are loaded
    pub group_count: usize,
}

impl Bindings {
    /// No bind groups loaded.
    pub fn new() -> (r: Self)
        ensures
            r.group_count == 0,
    {
        Bindings { group_count: 0 }
    }

    /// True if bindings were loaded to the backend.
    pub fn loaded(&self) -> (r: bool)
        ensures
            r == (self.group_count > 0),
    {
        self.group_count > 0
    }

    /// Loads one backend bind group per described group.
    pub fn load(&mut self, context: &Context, groups: &[ConcreteBindGroup<'_>])
        ensures
            final(self).group_count == groups@.len(),
    {
        let _ = context;
        self.group_count = groups.len();
    }

    /// Unloads the bindings from the backend.
    pub fn unload(&mut self)
        ensures
            final(self).group_count == 0,
    {
        self.group_count = 0;
    }
}

/// Mode of the depth buffer.
#[derive(Debug, Eq, PartialEq, Copy, Clone, Structural)]
pub enum DepthBufferMode {
    /// Depth buffer is disabled
    Disabled,
    /// Read + Write mode
    ReadWrite,
    /// Read Only mode
    ReadOnly,
}

/// The backend state of a render pipeline.
pub struct RenderPipeline {
    /// Depth buffer mode the pipeline was built with
    pub depth_buffer_mode: DepthBufferMode,
    /// How many bind group layouts the pipeline was built with
    pub group_count: usize,
}

/// The backend state of a compute pipeline.
pub struct ComputePipeline {
    /// How many bind group layouts the pipeline was built with
    pub group_count: usize,
}

/// Pipeline instance.
pub enum PipelineInstance {
    /// Rendering pipeline instance
    Render(RenderPipeline),
    /// Compute pipeline instance
    Compute(ComputePipeline),
}

impl PipelineInstance {
    /// The render pipeline behind the instance; only a render instance may
    /// be used for rendering.
    pub fn render(&self) -> (r: &RenderPipeline)
        requires
            self is Render,
        ensures
            *self == PipelineInstance::Render(*r),
    {
        match self {
            Self::Render(pipeline) => pipeline,
            Self::Compute(_) => vstd::pervasive::unreached(),
        }
    }

    /// The compute pipeline behind the instance; only a compute instance
    /// may be used for computing.
    pub fn compute(&self) -> (r: &ComputePipeline)
        requires
            self is Compute,
        ensures
            *self == PipelineInstance::Compute(*r),
    {
        match self {
            Self::Compute(pipeline) => pipeline,
            Self::Render(_) => vstd::pervasive::unreached(),
        }
    }
}

/// Pipeline context: the handle a component keeps to its backend pipeline.
pub struct Pipeline {
    /// The backing instance
    pub instance: Option<PipelineInstance>,
    /// Pipeline bindings
    pub bindings: Bindings,
    /// The renderer cycle the pipeline last ran in
    pub cycle: usize,
    /// Whether the pipeline is disabled
    pub disabled: bool,
}

impl Default for Pipeline {
    /// A pipeline with no instance, no bindings, that has not run yet.
    fn default() -> (r: Self)
        ensures
            r.instance is None,
            r.bindings.group_count == 0,
            r.cycle == 0,
            !r.disabled,
    {
        Pipeline { instance: None, bindings: Bindings::new(), cycle: 0, disabled: false }
    }
}

/// Render component to control a render pipeline.
pub struct Render {
    /// Pipeline context
    pub pipeline: Pipeline,
}

/// Compute component to control a compute pipeline.
pub struct Compute {
    /// Pipeline context
    pub pipeline: Pipeline,
}

impl Pipeline {
    /// Constructs a new compute pipeline component.
    pub fn compute() -> (r: Compute)
        ensures
            r.pipeline.instance is None,
            r.pipeline.bindings.group_count == 0,
            r.pipeline.cycle == 0,
            !r.pipeline.disabled,
    {
        Compute { pipeline: Pipeline::default() }
    }

    /// Constructs a new render pipeline component.
    pub fn render() -> (r: Render)
        ensures
            r.pipeline.instance is None,
            r.pipeline.bindings.group_count == 0,
            r.pipeline.cycle == 0,
            !r.pipeline.disabled,
    {
        Render { pipeline: Pipeline::default() }
    }

    /// Gets the cycle number the pipeline last ran in.
    pub fn get_cycle(&self) -> (r: usize)
        ensures
            r == self.cycle,
    {
        self.cycle
    }

    /// Checks whether a rendering cycle should be performed: the pipeline
    /// is enabled and has not run in the renderer's current cycle yet.
    pub fn cycle(&self, renderer: &Renderer) -> (r: bool)
        ensures
            r == (!self.disabled && self.cycle != renderer.cycle),
    {
        !self.disabled && self.cycle != renderer.cycle()
    }

    /// True if the pipeline is ready to run: it has an instance and loaded
    /// bindings.
    pub fn ready(&self) -> (r: bool)
        ensures
            r == (self.instance is Some && self.bindings.group_count > 0),
    {
        self.instance.is_some() && self.bindings.loaded()
    }
}

impl Renderer {
    /// Binds uniforms and other data to the pipeline: creates the pipeline
    /// instance from the layout when none is ready yet, and (re)loads the
    /// bindings, one bind group per described group.
    pub fn bind<'a>(&mut self, pipeline: &mut Pipeline, layout: PipelineLayout<'a>)
        requires
            old(self).context is Some,
            layout.spec_shader().module.loaded,
        ensures
            *final(self) == *old(self),
            final(pipeline).instance is Some,
            old(pipeline).instance is Some ==> final(pipeline).instance == old(pipeline).instance,
            old(pipeline).instance is None ==> match layout {
                PipelineLayout::Render { bindings, options: RenderOptions { depth_buffer_mode, .. }, .. } => final(pipeline).instance == Some(
                    PipelineInstance::Render(
                        RenderPipeline { depth_buffer_mode, group_count: bindings@.len() as usize },
                    ),
                ),
                PipelineLayout::Compute { bindings, .. } => final(pipeline).instance == Some(
                    PipelineInstance::Compute(
                        ComputePipeline { group_count: bindings@.len() as usize },
                    ),
                ),
            },
            final(pipeline).bindings.group_count == match layout {
                PipelineLayout::Render { bindings, .. } => bindings@.len(),
                PipelineLayout::Compute { bindings, .. } => bindings@.len(),
            },
            final(pipeline).cycle == old(pipeline).cycle,
            final(pipeline).disabled == old(pipeline).disabled,
    {
        let context = self.context.as_ref().unwrap();
        if pipeline.instance.is_none() {
            let instance = layout.instance(context);
            pipeline.instance = Some(instance);
        }
        let groups = match &layout {
            PipelineLayout::Render { bindings, .. } => bindings,
            PipelineLayout::Compute { bindings, .. } => bindings,
        };
        let mut bindings = Bindings::new();
        bindings.load(context, groups);
        pipeline.bindings = bindings;
    }
}

/// Scissors rectangle.
#[derive(Debug, Clone, Copy, Eq, PartialEq, Structural)]
pub struct ScissorsRect {
    /// Minimal clip size by X axis
    pub clip_min_x: u32,
    /// Minimal clip size by Y axis
    pub clip_min_y: u32,
    /// Widget width
    pub width: u32,
    /// Widget height
    pub height: u32,
}

/// Pipeline options of a draw call.
pub struct RenderOptions {
    /// Depth buffer mode
    pub depth_buffer_mode: DepthBufferMode,
    /// Disable cull mode
    pub disable_cull_mode: bool,
    /// Vertex shader entry point
    pub vs_main: String,
    /// Fragment shader entry point
    pub fs_main: String,
}

impl Default for RenderOptions {
    /// Read-write depth buffer, culling enabled, conventional entry points.
    fn default() -> (r: Self)
        ensures
            r.depth_buffer_mode == DepthBufferMode::ReadWrite,
            !r.disable_cull_mode,
            r.vs_main@ == ("vs_main")@,
            r.fs_main@ == ("fs_main")@,
    {
        Self {
            depth_buffer_mode: DepthBufferMode::ReadWrite,
            disable_cull_mode: false,
            vs_main: ("vs_main").to_owned(),
            fs_main: ("fs_main").to_owned(),
        }
    }
}

/// Pipeline options of a compute call.
pub struct ComputeOptions {
    /// Compute shader entry point
    pub cs_main: String,
}

impl Default for ComputeOptions {
    /// The conventional compute entry point.
    fn default() -> (r: Self)
        ensures
            r.cs_main@ == ("cs_main")@,
    {
        Self { cs_main: ("cs_main").to_owned() }
    }
}

/// Draw call arguments.
pub struct DrawArgs {
    /// Scissors rectangle
    pub scissors_rect: Option<ScissorsRect>,
    /// Indexed draw start
    pub start_index: u32,
    /// Indexed draw end
    pub end_index: u32,
    /// Options used for binding
    pub render_options: RenderOptions,
}

impl Default for DrawArgs {
    /// No scissors, a single index, default render options.
    fn default() -> (r: Self)
        ensures
            r.scissors_rect is None,
            r.start_index == 0,
            r.end_index == 1,
            r.render_options.depth_buffer_mode == DepthBufferMode::ReadWrite,
    {
        Self {
            scissors_rect: None,
            start_index: 0,
            end_index: 1,
            render_options: RenderOptions::default(),
        }
    }
}

/// Compute call arguments.
pub struct ComputeArgs {
    /// Compute work groups
    pub work_groups: WorkGroups,
    /// Options for binding
    pub compute_options: ComputeOptions,
}

/// Numbers of work groups in all directions.
#[derive(Debug, Clone, Copy, Eq, PartialEq, Structural)]
pub struct WorkGroups {
    /// Number of work groups in X direction
    pub x: u32,
    /// Number of work groups in Y direction
    pub y: u32,
    /// Number of work groups in Z direction
    pub z: u32,
}

/// Pipeline layout: what a pipeline instance is built from.
pub enum PipelineLayout<'a> {
    /// Rendering pipeline layout
    Render {
        /// Name of the pipeline
        label: String,
        /// Shader module
        shader: &'a Shader,
        /// Pipeline bindings
        bindings: &'a [ConcreteBindGroup<'a>],
        /// Pipeline options
        options: RenderOptions,
    },
    /// Compute pipeline layout
    Compute {
        /// Name of the pipeline
        label: String,
        /// Shader module
        shader: &'a Shader,
        /// Pipeline bindings
        bindings: &'a [ConcreteBindGroup<'a>],
        /// Pipeline options
        options: ComputeOptions,
    },
}

impl<'a> PipelineLayout<'a> {
    /// The shader the layout names.
    pub open spec fn spec_shader(&self) -> Shader {
        match *self {
            PipelineLayout::Render { shader, .. } => *shader,
            PipelineLayout::Compute { shader, .. } => *shader,
        }
    }

    /// Constructs a pipeline instance from the layout: a render layout
    /// yields a render instance carrying its depth buffer mode, a compute
    /// layout a compute instance, each with one bind group layout per
    /// described group.  The shader module must be loaded.
    pub fn instance(&self, context: &Context) -> (r: PipelineInstance)
        requires
            self.spec_shader().module.loaded,
        ensures
            match *self {
                PipelineLayout::Render { bindings, options: RenderOptions { depth_buffer_mode, .. }, .. } => r
                    == PipelineInstance::Render(
                    RenderPipeline { depth_buffer_mode, group_count: bindings@.len() as usize },
                ),
                PipelineLayout::Compute { bindings, .. } => r == PipelineInstance::Compute(
                    ComputePipeline { group_count: bindings@.len() as usize },
                ),
            },
    {
        let _ = context;
        match self {
            PipelineLayout::Render { bindings, options, .. } => PipelineInstance::Render(
                RenderPipeline {
                    depth_buffer_mode: options.depth_buffer_mode,
                    group_count: bindings.len(),
                },
            ),
            PipelineLayout::Compute { bindings, .. } => PipelineInstance::Compute(
                ComputePipeline { group_count: bindings.len() },
            ),
        }
    }
}

} // verus!
