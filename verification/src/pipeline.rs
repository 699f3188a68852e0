//! Pipeline building and resource lifetime. The graphics pipeline is
//! built from the compiled vertex and fragment artifacts plus fixed
//! fixed-function state; the two shader modules are only needed while the
//! pipeline is being built and must be released afterwards — also on
//! every partial-failure path, so nothing leaks. Teardown at shutdown
//! follows strict reverse-dependency order: pipeline, then device, then
//! window.

use vstd::prelude::*;

verus! {

/// How primitives are assembled.
#[derive(Clone, Copy, PartialEq, Eq, Structural, Debug)]
pub enum PrimitiveTopology {
    PointList,
    LineList,
    TriangleList,
    TriangleStrip,
}

/// How polygons are rasterized.
#[derive(Clone, Copy, PartialEq, Eq, Structural, Debug)]
pub enum FillMode {
    Fill,
    Line,
}

/// Which faces are culled.
#[derive(Clone, Copy, PartialEq, Eq, Structural, Debug)]
pub enum CullMode {
    NoCulling,
    Front,
    Back,
}

/// Which winding counts as the front face.
#[derive(Clone, Copy, PartialEq, Eq, Structural, Debug)]
pub enum FrontFace {
    CounterClockwise,
    Clockwise,
}

/// Depth comparison operator.
#[derive(Clone, Copy, PartialEq, Eq, Structural, Debug)]
pub enum CompareOp {
    Never,
    Less,
    Equal,
    Greater,
    Always,
}

/// The fixed-function state of the one graphics pipeline, as plain
/// values. The color target format is the window's native swapchain
/// format, queried once and kept for the pipeline's whole lifetime.
#[derive(Clone, Copy, PartialEq, Eq, Structural, Debug)]
pub struct PipelineDesc {
    pub topology: PrimitiveTopology,
    pub fill_mode: FillMode,
    pub cull_mode: CullMode,
    pub front_face: FrontFace,
    pub sample_count: u32,
    pub depth_test_enabled: bool,
    pub depth_compare: CompareOp,
    pub stencil_test_enabled: bool,
    pub blend_enabled: bool,
    pub color_target_count: u32,
    pub color_format: u32,
    pub has_depth_stencil_target: bool,
    pub vertex_buffer_count: u32,
    pub vertex_attribute_count: u32,
}

/// The fixed-function state this engine always uses: a triangle strip
/// with no vertex buffers (positions come from the vertex stage), filled,
/// unculled, counter-clockwise front faces, single-sampled, depth test
/// wired to `Greater` but disabled, no stencil, no blending, one color
/// target in the given swapchain format.
pub open spec fn spec_pipeline_desc(swapchain_format: u32) -> PipelineDesc {
    PipelineDesc {
        topology: PrimitiveTopology::TriangleStrip,
        fill_mode: FillMode::Fill,
        cull_mode: CullMode::NoCulling,
        front_face: FrontFace::CounterClockwise,
        sample_count: 1,
        depth_test_enabled: false,
        depth_compare: CompareOp::Greater,
        stencil_test_enabled: false,
        blend_enabled: false,
        color_target_count: 1,
        color_format: swapchain_format,
        has_depth_stencil_target: false,
        vertex_buffer_count: 0,
        vertex_attribute_count: 0,
    }
}

/// Build the pipeline description against the window's swapchain format.
pub fn pipeline_desc(swapchain_format: u32) -> (r: PipelineDesc)
    ensures
        r == spec_pipeline_desc(swapchain_format),
{
    PipelineDesc {
        topology: PrimitiveTopology::TriangleStrip,
        fill_mode: FillMode::Fill,
        cull_mode: CullMode::NoCulling,
        front_face: FrontFace::CounterClockwise,
        sample_count: 1,
        depth_test_enabled: false,
        depth_compare: CompareOp::Greater,
        stencil_test_enabled: false,
        blend_enabled: false,
        color_target_count: 1,
        color_format: swapchain_format,
        has_depth_stencil_target: false,
        vertex_buffer_count: 0,
        vertex_attribute_count: 0,
    }
}

/// The draw call of the full-screen quad: four vertices of one instance,
/// no offsets, positions generated entirely by the vertex stage.
#[derive(Clone, Copy, PartialEq, Eq, Structural, Debug)]
pub struct DrawCall {
    pub vertex_count: u32,
    pub instance_count: u32,
    pub first_vertex: u32,
    pub first_instance: u32,
}

/// The fixed draw parameters.
pub open spec fn spec_quad_draw() -> DrawCall {
    DrawCall { vertex_count: 4, instance_count: 1, first_vertex: 0, first_instance: 0 }
}

/// The draw call every successful frame issues exactly once.
pub fn quad_draw() -> (r: DrawCall)
    ensures
        r == spec_quad_draw(),
{
    DrawCall { vertex_count: 4, instance_count: 1, first_vertex: 0, first_instance: 0 }
}

/// A clear color with 8-bit channels; the platform layer widens it to
/// whatever the device wants.
#[derive(Clone, Copy, PartialEq, Eq, Structural, Debug)]
pub struct ClearColor {
    pub red: u8,
    pub green: u8,
    pub blue: u8,
    pub alpha: u8,
}

/// The render pass clears to opaque black and keeps what was drawn.
pub open spec fn spec_clear_color() -> ClearColor {
    ClearColor { red: 0, green: 0, blue: 0, alpha: 255 }
}

/// The clear color of the frame's render pass: opaque black.
pub fn clear_color() -> (r: ClearColor)
    ensures
        r == spec_clear_color(),
{
    ClearColor { red: 0, green: 0, blue: 0, alpha: 255 }
}

/// The transient shader modules a pipeline is built from.
#[derive(Clone, Copy, PartialEq, Eq, Structural, Debug)]
pub enum ShaderSlot {
    VertexModule,
    FragmentModule,
}

/// Which step of the pipeline build failed.
#[derive(Clone, Copy, PartialEq, Eq, Structural, Debug)]
pub enum PipelineBuildError {
    VertexShaderFailed,
    FragmentShaderFailed,
    PipelineFailed,
}

/// The duty the platform layer owes after its create calls have reported
/// their outcomes: whether a pipeline now exists, which shader modules
/// must be released and in what order, and the error to propagate if any
/// step failed.
#[derive(Debug)]
pub struct PipelineBuildPlan {
    pub pipeline_created: bool,
    pub releases: Vec<ShaderSlot>,
    pub error: Option<PipelineBuildError>,
}

/// The mathematical content of a build plan.
pub struct BuildPlanView {
    pub pipeline_created: bool,
    pub releases: Seq<ShaderSlot>,
    pub error: Option<PipelineBuildError>,
}

/// The build protocol: the vertex module is created first, then the
/// fragment module, then the pipeline; the first failure stops the chain.
/// Whatever happened, every module that was created is released, fragment
/// first, and the pipeline build fails exactly when some step failed.
pub open spec fn spec_build_plan(vertex_ok: bool, fragment_ok: bool, pipeline_ok: bool)
    -> BuildPlanView {
    if !vertex_ok {
        BuildPlanView {
            pipeline_created: false,
            releases: Seq::empty(),
            error: Some(PipelineBuildError::VertexShaderFailed),
        }
    } else if !fragment_ok {
        BuildPlanView {
            pipeline_created: false,
            releases: seq![ShaderSlot::VertexModule],
            error: Some(PipelineBuildError::FragmentShaderFailed),
        }
    } else if !pipeline_ok {
        BuildPlanView {
            pipeline_created: false,
            releases: seq![ShaderSlot::FragmentModule, ShaderSlot::VertexModule],
            error: Some(PipelineBuildError::PipelineFailed),
        }
    } else {
        BuildPlanView {
            pipeline_created: true,
            releases: seq![ShaderSlot::FragmentModule, ShaderSlot::VertexModule],
            error: None,
        }
    }
}

/// Compute the build plan from the outcomes of the three create calls.
/// The later outcomes are ignored when an earlier step already failed,
/// since those calls were never made.
pub fn pipeline_build_plan(vertex_ok: bool, fragment_ok: bool, pipeline_ok: bool) -> (r:
    PipelineBuildPlan)
    ensures
        r.pipeline_created == spec_build_plan(vertex_ok, fragment_ok, pipeline_ok).pipeline_created,
        r.releases@ == spec_build_plan(vertex_ok, fragment_ok, pipeline_ok).releases,
        r.error == spec_build_plan(vertex_ok, fragment_ok, pipeline_ok).error,
{
    let mut releases: Vec<ShaderSlot> = Vec::new();
    if !vertex_ok {
        proof {
            assert(releases@ =~= spec_build_plan(vertex_ok, fragment_ok, pipeline_ok).releases);
        }
        return PipelineBuildPlan {
            pipeline_created: false,
            releases,
            error: Some(PipelineBuildError::VertexShaderFailed),
        };
    }
    if !fragment_ok {
        releases.push(ShaderSlot::VertexModule);
        proof {
            assert(releases@ =~= spec_build_plan(vertex_ok, fragment_ok, pipeline_ok).releases);
        }
        return PipelineBuildPlan {
            pipeline_created: false,
            releases,
            error: Some(PipelineBuildError::FragmentShaderFailed),
        };
    }
    releases.push(ShaderSlot::FragmentModule);
    releases.push(ShaderSlot::VertexModule);
    proof {
        assert(releases@ =~= spec_build_plan(vertex_ok, fragment_ok, pipeline_ok).releases);
    }
    if !pipeline_ok {
        return PipelineBuildPlan {
            pipeline_created: false,
            releases,
            error: Some(PipelineBuildError::PipelineFailed),
        };
    }
    PipelineBuildPlan { pipeline_created: true, releases, error: None }
}

/// No resource leaks on any path: the vertex module is released exactly
/// when its creation succeeded, the fragment module exactly when its
/// creation was reached and succeeded, no slot is released twice, and
/// failure is reported exactly when some step failed.
pub proof fn lemma_build_plan_no_leak(vertex_ok: bool, fragment_ok: bool, pipeline_ok: bool)
    ensures
        spec_build_plan(vertex_ok, fragment_ok, pipeline_ok).releases.contains(
            ShaderSlot::VertexModule,
        ) <==> vertex_ok,
        spec_build_plan(vertex_ok, fragment_ok, pipeline_ok).releases.contains(
            ShaderSlot::FragmentModule,
        ) <==> (vertex_ok && fragment_ok),
        forall|i: int, j: int|
            0 <= i < j < spec_build_plan(vertex_ok, fragment_ok, pipeline_ok).releases.len()
                ==> spec_build_plan(vertex_ok, fragment_ok, pipeline_ok).releases[i]
                != spec_build_plan(vertex_ok, fragment_ok, pipeline_ok).releases[j],
        spec_build_plan(vertex_ok, fragment_ok, pipeline_ok).error is None <==> (vertex_ok
            && fragment_ok && pipeline_ok),
        spec_build_plan(vertex_ok, fragment_ok, pipeline_ok).pipeline_created <==> (vertex_ok
            && fragment_ok && pipeline_ok),
{
    let plan = spec_build_plan(vertex_ok, fragment_ok, pipeline_ok);
    if !vertex_ok {
        assert(plan.releases.len() == 0);
    } else if !fragment_ok {
        assert(plan.releases[0] == ShaderSlot::VertexModule);
        assert(plan.releases.len() == 1);
    } else {
        assert(plan.releases[0] == ShaderSlot::FragmentModule);
        assert(plan.releases[1] == ShaderSlot::VertexModule);
        assert(plan.releases.len() == 2);
    }
}

/// The steps of shutdown, in the order they must run.
#[derive(Clone, Copy, PartialEq, Eq, Structural, Debug)]
pub enum TeardownStep {
    ReleasePipeline,
    DestroyDevice,
    DestroyWindow,
}

/// Shutdown order: reverse dependency order, pipeline before the device
/// that owns it, device before the window it claimed.
pub open spec fn spec_teardown_sequence() -> Seq<TeardownStep> {
    seq![TeardownStep::ReleasePipeline, TeardownStep::DestroyDevice, TeardownStep::DestroyWindow]
}

/// The shutdown steps the platform layer must perform, in order.
pub fn teardown_sequence() -> (r: Vec<TeardownStep>)
    ensures
        r@ == spec_teardown_sequence(),
{
    let mut v: Vec<TeardownStep> = Vec::new();
    v.push(TeardownStep::ReleasePipeline);
    v.push(TeardownStep::DestroyDevice);
    v.push(TeardownStep::DestroyWindow);
    proof {
        assert(v@ =~= spec_teardown_sequence());
    }
    v
}

/// Teardown ordering: in the shutdown sequence each step occurs exactly
/// once, the pipeline release strictly precedes the device destruction,
/// and the device destruction strictly precedes the window destruction.
pub proof fn lemma_teardown_order()
    ensures
        spec_teardown_sequence().len() == 3,
        forall|i: int, j: int|
            0 <= i < j < spec_teardown_sequence().len() ==> !(
            spec_teardown_sequence()[i] == spec_teardown_sequence()[j]),
        forall|i: int, j: int|
            0 <= i < spec_teardown_sequence().len() && 0 <= j < spec_teardown_sequence().len()
                && spec_teardown_sequence()[i] == TeardownStep::DestroyDevice
                && spec_teardown_sequence()[j] == TeardownStep::ReleasePipeline ==> j < i,
        forall|i: int, j: int|
            0 <= i < spec_teardown_sequence().len() && 0 <= j < spec_teardown_sequence().len()
                && spec_teardown_sequence()[i] == TeardownStep::DestroyWindow
                && spec_teardown_sequence()[j] == TeardownStep::DestroyDevice ==> j < i,
{
}

} // verus!
