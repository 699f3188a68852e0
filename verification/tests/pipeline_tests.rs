use mehu_engine::pipeline::{
    clear_color, pipeline_build_plan, pipeline_desc, quad_draw, teardown_sequence, CompareOp,
    CullMode, FillMode, FrontFace, PipelineBuildError, PrimitiveTopology, ShaderSlot,
    TeardownStep,
};

#[test]
fn pipeline_desc_matches_fixed_function_state() {
    let desc = pipeline_desc(37);
    assert_eq!(desc.topology, PrimitiveTopology::TriangleStrip);
    assert_eq!(desc.fill_mode, FillMode::Fill);
    assert_eq!(desc.cull_mode, CullMode::NoCulling);
    assert_eq!(desc.front_face, FrontFace::CounterClockwise);
    assert_eq!(desc.sample_count, 1);
    assert!(!desc.depth_test_enabled);
    assert_eq!(desc.depth_compare, CompareOp::Greater);
    assert!(!desc.stencil_test_enabled);
    assert!(!desc.blend_enabled);
    assert_eq!(desc.color_target_count, 1);
    assert_eq!(desc.color_format, 37);
    assert!(!desc.has_depth_stencil_target);
    assert_eq!(desc.vertex_buffer_count, 0);
    assert_eq!(desc.vertex_attribute_count, 0);
}

#[test]
fn successful_build_releases_both_modules() {
    let plan = pipeline_build_plan(true, true, true);
    assert!(plan.pipeline_created);
    assert_eq!(plan.error, None);
    assert_eq!(plan.releases, vec![ShaderSlot::FragmentModule, ShaderSlot::VertexModule]);
}

#[test]
fn vertex_failure_releases_nothing() {
    let plan = pipeline_build_plan(false, false, false);
    assert!(!plan.pipeline_created);
    assert_eq!(plan.error, Some(PipelineBuildError::VertexShaderFailed));
    assert!(plan.releases.is_empty());
}

#[test]
fn fragment_failure_releases_vertex_module() {
    let plan = pipeline_build_plan(true, false, false);
    assert!(!plan.pipeline_created);
    assert_eq!(plan.error, Some(PipelineBuildError::FragmentShaderFailed));
    assert_eq!(plan.releases, vec![ShaderSlot::VertexModule]);
}

#[test]
fn pipeline_failure_releases_both_modules() {
    let plan = pipeline_build_plan(true, true, false);
    assert!(!plan.pipeline_created);
    assert_eq!(plan.error, Some(PipelineBuildError::PipelineFailed));
    assert_eq!(plan.releases, vec![ShaderSlot::FragmentModule, ShaderSlot::VertexModule]);
}

#[test]
fn quad_draw_is_four_vertices_one_instance() {
    let draw = quad_draw();
    assert_eq!(draw.vertex_count, 4);
    assert_eq!(draw.instance_count, 1);
    assert_eq!(draw.first_vertex, 0);
    assert_eq!(draw.first_instance, 0);
}

#[test]
fn clear_color_is_opaque_black() {
    let c = clear_color();
    assert_eq!((c.red, c.green, c.blue, c.alpha), (0, 0, 0, 255));
}

#[test]
fn teardown_runs_in_reverse_dependency_order() {
    let steps = teardown_sequence();
    assert_eq!(
        steps,
        vec![
            TeardownStep::ReleasePipeline,
            TeardownStep::DestroyDevice,
            TeardownStep::DestroyWindow,
        ]
    );
    let pipeline_at = steps.iter().position(|s| *s == TeardownStep::ReleasePipeline).unwrap();
    let device_at = steps.iter().position(|s| *s == TeardownStep::DestroyDevice).unwrap();
    let window_at = steps.iter().position(|s| *s == TeardownStep::DestroyWindow).unwrap();
    assert!(pipeline_at < device_at);
    assert!(device_at < window_at);
}
