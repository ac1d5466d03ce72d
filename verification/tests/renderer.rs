use bindless_sample::color::ColorEnum;
use bindless_sample::descriptor::Descriptors;
use bindless_sample::fixed::{Vec2, Vec4, ONE};
use bindless_sample::recording::{Recording, Step};
use bindless_sample::render_pass::{Format, TriangleRendererRTFormat};
use bindless_sample::render_target::{ImageAccess, RenderTarget};
use bindless_sample::renderer::{
    vertex_angle, ColorComponents, CullMode, DepthStencilState, DrawError, DrawIndirectCommand,
    FrontFace, GraphicsPipelineCreateInfo, LoadOp, PolygonMode, PrimitiveTopology, StoreOp,
    TriangleRenderer, CORNER_STEP, DEGREES_PER_SECOND, FULL_TURN, VERTEX_CNT,
};
use bindless_sample::triangle::Vertex;

const SRGB: Format = Format { code: 50 };

fn direction(angle: u32) -> Vec2 {
    let radians = (angle as f64 / 1e6).to_radians();
    Vec2::new(
        (radians.sin() * 1e6).round() as i32,
        (radians.cos() * 1e6).round() as i32,
    )
}

fn float(v: Vec2) -> (f64, f64) {
    (v.x as f64 / 1e6, v.y as f64 / 1e6)
}

#[test]
fn the_render_pass_has_one_color_attachment() {
    let format = TriangleRendererRTFormat::new(SRGB).to_render_pass_format();
    assert_eq!(format.color_formats(), vec![SRGB]);
    assert_eq!(format.depth_attachment, None);
    let other = TriangleRendererRTFormat::new(Format { code: 44 }).to_render_pass_format();
    assert_eq!(other.color_formats(), vec![Format { code: 44 }]);
}

#[test]
fn the_pipeline_draws_filled_triangles() {
    let renderer = TriangleRenderer::new(SRGB, 0);
    assert_eq!(
        renderer.pipeline_info(),
        GraphicsPipelineCreateInfo {
            topology: PrimitiveTopology::TriangleList,
            polygon_mode: PolygonMode::Fill,
            front_face: FrontFace::CounterClockwise,
            cull_mode: CullMode::Back,
            depth_stencil: DepthStencilState {
                depth_test: false,
                depth_write: false,
                stencil_test: false,
            },
            color_write_mask: ColorComponents { r: true, g: true, b: true, a: true },
        }
    );
}

#[test]
fn the_triangle_turns_three_tenths_of_a_turn_per_second() {
    assert_eq!(VERTEX_CNT, 3);
    assert_eq!(FULL_TURN, 360_000_000);
    assert_eq!(CORNER_STEP, 120_000_000);
    assert_eq!(DEGREES_PER_SECOND, 108);
    assert_eq!(vertex_angle(0, 0), 0);
    assert_eq!(vertex_angle(0, 1), 120_000_000);
    assert_eq!(vertex_angle(0, 2), 240_000_000);
    // After one second: 108 degrees.
    assert_eq!(vertex_angle(1_000_000, 0), 108_000_000);
    assert_eq!(vertex_angle(1_000_000, 1), 228_000_000);
    assert_eq!(vertex_angle(1_000_000, 2), 348_000_000);
    // After three seconds: 324 degrees; the later corners have passed the full turn.
    assert_eq!(vertex_angle(3_000_000, 0), 324_000_000);
    assert_eq!(vertex_angle(3_000_000, 1), 84_000_000);
    assert_eq!(vertex_angle(3_000_000, 2), 204_000_000);
    // Ten seconds are three full turns.
    assert_eq!(vertex_angle(10_000_000, 0), 0);
    assert_eq!(vertex_angle(u64::MAX, 0), ((u64::MAX as u128 * 108) % 360_000_000) as u32);
    assert_eq!(vertex_angle(1, 3), 108);
}

#[test]
fn corners_are_a_third_of_a_turn_apart() {
    for elapsed in [0u64, 1, 999_999, 1_000_000, 3_333_333, 123_456_789_012, u64::MAX] {
        for corner in 0..3 {
            let here = vertex_angle(elapsed, corner);
            let there = vertex_angle(elapsed, corner + 1);
            assert!(here < FULL_TURN);
            assert_eq!(there, (here + CORNER_STEP) % FULL_TURN);
        }
    }
}

#[test]
fn at_the_start_the_first_vertex_points_up() {
    let renderer = TriangleRenderer::new(SRGB, 5_000_000);
    let vertices = renderer.generate_vertices(5_000_000, direction);
    assert_eq!(vertices[0].position, Vec2::new(0, ONE));
    // A clock that runs backwards counts as no time at all.
    let vertices = renderer.generate_vertices(4_000_000, direction);
    assert_eq!(vertices[0].position, Vec2::new(0, ONE));
}

#[test]
fn vertices_lie_on_the_unit_circle_a_third_of_a_turn_apart() {
    let renderer = TriangleRenderer::new(SRGB, 1_000);
    for now in [1_000u64, 250_000, 1_001_000, 7_777_777, 3_600_000_000] {
        let vertices = renderer.generate_vertices(now, direction);
        for vertex in vertices.iter() {
            let (x, y) = float(vertex.position);
            assert!(((x * x + y * y).sqrt() - 1.0).abs() < 1e-5);
        }
        for corner in 0..3 {
            let (x0, y0) = float(vertices[corner].position);
            let (x1, y1) = float(vertices[(corner + 1) % 3].position);
            // The cosine of the angle between two corners is that of 120 degrees.
            assert!((x0 * x1 + y0 * y1 + 0.5).abs() < 1e-5);
            // The later corner is ahead in the direction of rising angles.
            assert!((x1 * y0 - x0 * y1 - (3.0f64).sqrt() / 2.0).abs() < 1e-5);
        }
    }
}

#[test]
fn vertices_are_red_green_and_blue_at_every_time() {
    let renderer = TriangleRenderer::new(SRGB, 0);
    for now in [0u64, 1_234_567, 9_999_999_999] {
        let vertices = renderer.generate_vertices(now, direction);
        assert_eq!(vertices[0].color, Vec4::new(ONE, 0, 0, ONE));
        assert_eq!(vertices[1].color, Vec4::new(0, ONE, 0, ONE));
        assert_eq!(vertices[2].color, Vec4::new(0, 0, ONE, ONE));
    }
}

#[test]
fn vertices_stand_at_their_angles() {
    let renderer = TriangleRenderer::new(SRGB, 0);
    // After two and a half seconds: 270 degrees, then 30 and 150.
    let vertices = renderer.generate_vertices(2_500_000, direction);
    assert_eq!(vertices[0].position, Vec2::new(-ONE, 0));
    assert_eq!(vertices[1].position, Vec2::new(500_000, 866_025));
    assert_eq!(vertices[2].position, Vec2::new(500_000, -866_025));
}

#[test]
fn an_image_passes_through_its_uses_in_order() {
    let mut recording = Recording::new();
    let target = RenderTarget::acquired(2);
    assert_eq!(target.image_index(), 2);
    assert_eq!(target.state(), ImageAccess::Undefined);
    assert!(!recording.is_rendering());
    let target = target.access_dont_care(&mut recording);
    assert_eq!(target.image_index(), 2);
    assert_eq!(target.state(), ImageAccess::ColorAttachment);
    assert!(!recording.is_rendering());
    let target = target.transition_present(&mut recording);
    assert_eq!(target.image_index(), 2);
    assert_eq!(target.state(), ImageAccess::Present);
    assert_eq!(target.present(), 2);
    assert_eq!(
        recording.finish(),
        vec![
            Step::Transition {
                image: 2,
                from: ImageAccess::Undefined,
                to: ImageAccess::ColorAttachment
            },
            Step::Transition { image: 2, from: ImageAccess::ColorAttachment, to: ImageAccess::Present },
        ]
    );
}

#[test]
fn steps_are_recorded_in_the_order_of_the_calls() {
    let mut table = Descriptors::new();
    let buffer = table.alloc_vertices(vec![Vertex::new(Vec2::new(0, 0), Vec4::new(0, 0, 0, 0)); 3]);
    let scope = table.begin_execution().unwrap();
    let param = bindless_sample::triangle::Param { vertices: buffer.to_transient(&scope) };
    let renderer = TriangleRenderer::new(SRGB, 0);
    let command =
        DrawIndirectCommand { vertex_count: 3, instance_count: 1, first_vertex: 0, first_instance: 0 };
    let mut recording = Recording::new();
    let target = RenderTarget::acquired(0).access_dont_care(&mut recording);
    assert_eq!(target.state(), ImageAccess::ColorAttachment);
    recording.begin_rendering(&target, LoadOp::DontCare);
    assert!(recording.is_rendering());
    recording.draw(renderer.pipeline_info(), command, param);
    recording.draw(renderer.pipeline_info(), command, param);
    assert!(recording.is_rendering());
    recording.end_rendering(StoreOp::DontCare);
    assert!(!recording.is_rendering());
    assert_eq!(
        recording.finish(),
        vec![
            Step::Transition {
                image: 0,
                from: ImageAccess::Undefined,
                to: ImageAccess::ColorAttachment
            },
            Step::BeginRendering { image: 0, load_op: LoadOp::DontCare },
            Step::Draw { pipeline: renderer.pipeline_info(), command, param },
            Step::Draw { pipeline: renderer.pipeline_info(), command, param },
            Step::EndRendering { store_op: StoreOp::DontCare },
        ]
    );
    table.end_execution(scope);
}

#[test]
fn a_frame_is_cleared_to_black_and_draws_one_triangle() {
    let mut table = Descriptors::new();
    assert!(table.is_empty());
    let kept = table.alloc_scalar(1);
    assert!(!table.is_empty());
    let renderer = TriangleRenderer::new(SRGB, 0);
    let vertices = renderer.generate_vertices(2_500_000, direction);
    let (target, frame) = renderer
        .draw(&mut table, RenderTarget::acquired(1), vertices)
        .unwrap();
    assert_eq!(target.image_index(), 1);
    assert_eq!(target.state(), ImageAccess::Present);
    assert_eq!(frame.format.color_formats(), vec![SRGB]);
    assert_eq!(frame.format.depth_attachment, None);
    assert_eq!(frame.pipeline, renderer.pipeline_info());
    assert_eq!(
        frame.steps,
        vec![
            Step::Transition {
                image: 1,
                from: ImageAccess::Undefined,
                to: ImageAccess::ColorAttachment
            },
            Step::BeginRendering { image: 1, load_op: LoadOp::Clear(Vec4::new(0, 0, 0, 0)) },
            Step::Draw {
                pipeline: renderer.pipeline_info(),
                command: DrawIndirectCommand {
                    vertex_count: 3,
                    instance_count: 1,
                    first_vertex: 0,
                    first_instance: 0
                },
                param: frame.param,
            },
            Step::EndRendering { store_op: StoreOp::Store },
            Step::Transition { image: 1, from: ImageAccess::ColorAttachment, to: ImageAccess::Present },
        ]
    );
    // The vertices were read from a buffer of the frame's own, which is gone
    // with the frame: not the buffer that was there before.
    assert_eq!(table.vertices_len(&frame.param.vertices), None);
    assert_eq!(frame.load_op, LoadOp::Clear(Vec4::new(0, 0, 0, 0)));
    assert_eq!(frame.load_op, LoadOp::Clear(ColorEnum::Black.color()));
    assert_eq!(frame.store_op, StoreOp::Store);
    assert_eq!(
        frame.command,
        DrawIndirectCommand { vertex_count: 3, instance_count: 1, first_vertex: 0, first_instance: 0 }
    );
    assert_eq!(
        frame.positions,
        vec![
            Vec4::new(-ONE, 0, 0, ONE),
            Vec4::new(500_000, 866_025, 0, ONE),
            Vec4::new(500_000, -866_025, 0, ONE),
        ]
    );
    assert_eq!(
        frame.colors,
        vec![Vec4::new(ONE, 0, 0, ONE), Vec4::new(0, ONE, 0, ONE), Vec4::new(0, 0, ONE, ONE)]
    );
    assert!(table.owns(&kept));
}

#[test]
fn the_vertex_buffer_of_a_frame_does_not_outlive_it() {
    let mut table = Descriptors::new();
    let renderer = TriangleRenderer::new(SRGB, 0);
    let vertices = [Vertex::new(Vec2::new(0, 0), Vec4::new(0, 0, 0, 0)); 3];
    for image in 0..100 {
        let (target, _) = renderer
            .draw(&mut table, RenderTarget::acquired(image % 3), vertices)
            .unwrap();
        assert_eq!(target.present(), image % 3);
    }
    assert!(table.is_empty());
}

#[test]
fn no_frame_is_drawn_while_a_scope_is_open() {
    let mut table = Descriptors::new();
    let renderer = TriangleRenderer::new(SRGB, 0);
    let vertices = [Vertex::new(Vec2::new(0, 0), Vec4::new(0, 0, 0, 0)); 3];
    let scope = table.begin_execution().unwrap();
    let result = renderer.draw(&mut table, RenderTarget::acquired(0), vertices);
    assert_eq!(result.err(), Some(DrawError::ExecutionUnavailable));
    assert!(table.is_open(&scope));
    table.end_execution(scope);
    assert!(renderer.draw(&mut table, RenderTarget::acquired(0), vertices).is_ok());
}
