use drawable_pipeline::binding::{binding_plan, BindingSlot, ReferenceShape};
use drawable_pipeline::pipeline::{frame_order, BindGroupSource, DrawStep, DrawablePipeline};
use drawable_pipeline::settings::{pipeline_settings, FrontFace, Topology};

type Pipeline = DrawablePipeline<&'static str, &'static str, u32>;

fn fresh(name: &str) -> Pipeline {
    DrawablePipeline::new(name.to_string(), Vec::new(), "layout", "group")
}

#[derive(Debug, PartialEq)]
enum Call {
    SetPipeline(u32),
    PushConstants(u32, Vec<u8>),
    SetBindGroup(u32, &'static str),
}

/// Plays a draw on a recorder, the way a render pass would receive it.
fn record(pipeline: &Pipeline, constants: &[u8], universal: &'static str, own_calls: &[Call]) -> Vec<Call> {
    let mut calls = Vec::new();
    for step in pipeline.draw() {
        match step {
            DrawStep::SetPipeline => calls.push(Call::SetPipeline(*pipeline.render_pipeline().unwrap())),
            DrawStep::PushConstants { offset } => calls.push(Call::PushConstants(offset, constants.to_vec())),
            DrawStep::SetBindGroup { group, source } => {
                let bound = match source {
                    BindGroupSource::Own => *pipeline.bind_group(),
                    BindGroupSource::Universal => universal,
                };
                calls.push(Call::SetBindGroup(group, bound));
            }
            DrawStep::DrawDrawable => {
                for c in own_calls {
                    calls.push(match c {
                        Call::SetPipeline(p) => Call::SetPipeline(*p),
                        Call::PushConstants(o, d) => Call::PushConstants(*o, d.clone()),
                        Call::SetBindGroup(g, b) => Call::SetBindGroup(*g, b),
                    });
                }
            }
        }
    }
    calls
}

#[test]
fn new_pipeline_is_not_ready() {
    let p = fresh("sprites");
    assert!(!p.ready());
    assert_eq!(p.name(), "sprites");
    assert!(p.render_pipeline().is_none());
}

#[test]
fn missing_shader_leaves_pipeline_not_ready() {
    let mut p = fresh("sprites");
    p.create_pipeline(Err::<u32, String>("no vertex shader named sprites".to_string()), None::<String>);
    assert!(!p.ready());
    p.create_pipeline(Err::<u32, String>("again".to_string()), None::<String>);
    assert!(!p.ready());
}

#[test]
fn validation_error_discards_created_pipeline() {
    let mut p = fresh("sprites");
    p.create_pipeline(Ok::<u32, String>(7), Some("invalid vertex layout".to_string()));
    assert!(!p.ready());
}

#[test]
fn later_failure_keeps_earlier_pipeline() {
    let mut p = fresh("sprites");
    p.create_pipeline(Ok::<u32, String>(7), None::<String>);
    assert!(p.ready());
    let before = record(&p, &[1, 2], "universal", &[]);
    p.create_pipeline(Err::<u32, String>("shader removed".to_string()), None::<String>);
    assert!(p.ready());
    assert_eq!(p.render_pipeline(), Some(&7));
    p.create_pipeline(Ok::<u32, String>(9), Some("invalid".to_string()));
    assert_eq!(p.render_pipeline(), Some(&7));
    assert_eq!(record(&p, &[1, 2], "universal", &[]), before);
}

#[test]
fn later_success_replaces_pipeline() {
    let mut p = fresh("sprites");
    p.create_pipeline(Ok::<u32, String>(7), None::<String>);
    p.create_pipeline(Ok::<u32, String>(8), None::<String>);
    assert_eq!(p.render_pipeline(), Some(&8));
}

#[test]
fn draw_binds_before_drawable_commands() {
    let mut p = fresh("sprites");
    p.create_pipeline(Ok::<u32, String>(3), None::<String>);
    let expected_steps = vec![
        DrawStep::SetPipeline,
        DrawStep::PushConstants { offset: 0 },
        DrawStep::SetBindGroup { group: 0, source: BindGroupSource::Own },
        DrawStep::SetBindGroup { group: 1, source: BindGroupSource::Universal },
        DrawStep::DrawDrawable,
    ];
    for _ in 0..3 {
        assert_eq!(p.draw(), expected_steps);
    }
    let calls = record(&p, &[5, 6, 7, 8], "universal", &[Call::SetBindGroup(2, "instances")]);
    assert_eq!(
        calls,
        vec![
            Call::SetPipeline(3),
            Call::PushConstants(0, vec![5, 6, 7, 8]),
            Call::SetBindGroup(0, "group"),
            Call::SetBindGroup(1, "universal"),
            Call::SetBindGroup(2, "instances"),
        ]
    );
}

#[test]
fn single_texture_drawable_draws_only_orchestrator_calls() {
    let refs = vec![ReferenceShape { has_layout: true, has_entry: true, has_vertex: false }];
    let plan = binding_plan(&refs).unwrap();
    assert_eq!(plan, vec![BindingSlot { binding: 0, reference: 0 }]);
    let settings = pipeline_settings(&refs, 64);
    assert!(settings.vertex_buffers.is_empty());
    let mut p: Pipeline = DrawablePipeline::new("texture".to_string(), plan, "layout", "group");
    assert!(!p.ready());
    p.create_pipeline(Ok::<u32, String>(1), None::<String>);
    assert!(p.ready());
    let calls = record(&p, &[0; 4], "universal", &[]);
    assert_eq!(
        calls,
        vec![
            Call::SetPipeline(1),
            Call::PushConstants(0, vec![0; 4]),
            Call::SetBindGroup(0, "group"),
            Call::SetBindGroup(1, "universal"),
        ]
    );
}

#[test]
fn frame_draws_ready_pipelines_in_registration_order() {
    let mut pipelines = vec![fresh("a"), fresh("b"), fresh("c"), fresh("d")];
    pipelines[1].create_pipeline(Ok::<u32, String>(1), None::<String>);
    pipelines[3].create_pipeline(Ok::<u32, String>(2), None::<String>);
    pipelines[2].create_pipeline(Err::<u32, String>("missing".to_string()), None::<String>);
    assert_eq!(frame_order(&pipelines), vec![1, 3]);
    let none: Vec<Pipeline> = Vec::new();
    assert!(frame_order(&none).is_empty());
}

#[test]
fn settings_are_fixed() {
    let refs = vec![
        ReferenceShape { has_layout: false, has_entry: false, has_vertex: true },
        ReferenceShape { has_layout: true, has_entry: true, has_vertex: false },
        ReferenceShape { has_layout: false, has_entry: false, has_vertex: true },
    ];
    let s = pipeline_settings(&refs, 80);
    assert_eq!(s.push_constant_size, 80);
    assert_eq!(s.bind_group_count, 2);
    assert_eq!(s.vertex_buffers, vec![0, 2]);
    assert_eq!(s.topology, Topology::TriangleList);
    assert_eq!(s.front_face, FrontFace::CounterClockwise);
    assert!(!s.cull_faces);
    assert!(s.alpha_blending);
    assert!(s.write_all_colors);
    assert_eq!(s.sample_count, 4);
    assert!(!s.depth_stencil);
}
