//! The renderer of the rotating triangle: its pipeline, the vertices of a
//! frame, and the drawing of a frame.

use crate::color::ColorEnum;
use crate::descriptor::{Descriptors, DescriptorsView};
use crate::recording::{Recording, Step};
use crate::fixed::{Vec2, Vec4, ONE};
use crate::render_pass::{attachment_formats, Format, RenderPassFormat, TriangleRendererRTFormat};
use crate::render_target::{ImageAccess, RenderTarget};
use crate::triangle::{triangle_fragment, triangle_vertex, Param, Vertex};
use vstd::prelude::*;

verus! {

/// How vertices are assembled into primitives.
#[derive(Copy, Clone, Debug, PartialEq, Eq, Structural)]
pub enum PrimitiveTopology {
    PointList,
    LineList,
    LineStrip,
    TriangleList,
    TriangleStrip,
    TriangleFan,
}

/// How the inside of a polygon is rasterized.
#[derive(Copy, Clone, Debug, PartialEq, Eq, Structural)]
pub enum PolygonMode {
    Fill,
    Line,
    Point,
}

/// The winding of the faces that count as front faces.
#[derive(Copy, Clone, Debug, PartialEq, Eq, Structural)]
pub enum FrontFace {
    CounterClockwise,
    Clockwise,
}

/// The faces that are not drawn.
#[derive(Copy, Clone, Debug, PartialEq, Eq, Structural)]
pub enum CullMode {
    Off,
    Front,
    Back,
    FrontAndBack,
}

/// The color components that drawing writes.
#[derive(Copy, Clone, Debug, PartialEq, Eq, Structural)]
pub struct ColorComponents {
    pub r: bool,
    pub g: bool,
    pub b: bool,
    pub a: bool,
}

/// The tests against the depth and stencil attachments.
#[derive(Copy, Clone, Debug, PartialEq, Eq, Structural)]
pub struct DepthStencilState {
    pub depth_test: bool,
    pub depth_write: bool,
    pub stencil_test: bool,
}

/// The fixed state of a graphics pipeline.
#[derive(Copy, Clone, Debug, PartialEq, Eq, Structural)]
pub struct GraphicsPipelineCreateInfo {
    pub topology: PrimitiveTopology,
    pub polygon_mode: PolygonMode,
    pub front_face: FrontFace,
    pub cull_mode: CullMode,
    pub depth_stencil: DepthStencilState,
    pub color_write_mask: ColorComponents,
}

/// What happens to an attachment when a render pass begins.
#[derive(Copy, Clone, Debug, PartialEq, Eq, Structural)]
pub enum LoadOp {
    Load,
    Clear(Vec4),
    DontCare,
}

/// What happens to an attachment when a render pass ends.
#[derive(Copy, Clone, Debug, PartialEq, Eq, Structural)]
pub enum StoreOp {
    Store,
    DontCare,
}

/// The extent of one draw call.
#[derive(Copy, Clone, Debug, PartialEq, Eq, Structural)]
pub struct DrawIndirectCommand {
    pub vertex_count: u32,
    pub instance_count: u32,
    pub first_vertex: u32,
    pub first_instance: u32,
}

/// One submitted frame: the render pass, its one draw call, the steps in
/// the order in which they were recorded, and what the vertex and fragment
/// stages made of each vertex.
pub struct Frame {
    pub format: RenderPassFormat,
    pub pipeline: GraphicsPipelineCreateInfo,
    pub load_op: LoadOp,
    pub store_op: StoreOp,
    pub command: DrawIndirectCommand,
    pub param: Param,
    pub steps: Vec<Step>,
    pub positions: Vec<Vec4>,
    pub colors: Vec<Vec4>,
}

/// Why a frame could not be drawn.
#[derive(Copy, Clone, Debug, PartialEq, Eq, Structural)]
pub enum DrawError {
    /// No execution scope could be opened.
    ExecutionUnavailable,
}

/// The renderer of the triangle.
pub struct TriangleRenderer {
    rt_format: TriangleRendererRTFormat,
    pipeline: GraphicsPipelineCreateInfo,
    timer: u64,
}

/// The number of vertices of a frame.
pub const VERTEX_CNT: usize = 3;

/// A full turn, in millionths of a degree.
pub const FULL_TURN: u32 = 360_000_000;

/// The angle between two corners of the triangle, in millionths of a degree.
pub const CORNER_STEP: u32 = 120_000_000;

/// The speed of the rotation, in degrees per second: three tenths of a turn.
pub const DEGREES_PER_SECOND: u32 = 108;

/// The angle of the corner `corner` after `elapsed` microseconds, in
/// millionths of a degree, reduced to less than a full turn.
pub open spec fn vertex_angle_spec(elapsed: int, corner: int) -> int {
    (DEGREES_PER_SECOND * elapsed + CORNER_STEP * corner) % (FULL_TURN as int)
}

/// The fixed color of the corner `corner`: red, green, blue.
pub open spec fn vertex_color_spec(corner: int) -> Vec4 {
    if corner == 0 {
        Vec4 { x: ONE, y: 0, z: 0, w: ONE }
    } else if corner == 1 {
        Vec4 { x: 0, y: ONE, z: 0, w: ONE }
    } else {
        Vec4 { x: 0, y: 0, z: ONE, w: ONE }
    }
}

/// The pipeline of the triangle: filled triangles from a list, front faces
/// counter-clockwise, back faces culled, no depth or stencil test, all four
/// color components written.
pub open spec fn triangle_pipeline_spec() -> GraphicsPipelineCreateInfo {
    GraphicsPipelineCreateInfo {
        topology: PrimitiveTopology::TriangleList,
        polygon_mode: PolygonMode::Fill,
        front_face: FrontFace::CounterClockwise,
        cull_mode: CullMode::Back,
        depth_stencil: DepthStencilState {
            depth_test: false,
            depth_write: false,
            stencil_test: false,
        },
        color_write_mask: ColorComponents { r: true, g: true, b: true, a: true },
    }
}

/// Computes the angle of a corner.
pub fn vertex_angle(elapsed: u64, corner: u32) -> (angle: u32)
    ensures
        angle == vertex_angle_spec(elapsed as int, corner as int),
        angle < FULL_TURN,
{
    let turned: u128 = (DEGREES_PER_SECOND as u128) * (elapsed as u128);
    let offset: u128 = (CORNER_STEP as u128) * (corner as u128);
    let reduced: u128 = (turned + offset) % (FULL_TURN as u128);
    reduced as u32
}

/// A corner is a third of a turn ahead of the corner before it, at every time.
pub proof fn lemma_corners_a_third_apart(elapsed: int, corner: int)
    requires
        0 <= elapsed,
        0 <= corner,
    ensures
        vertex_angle_spec(elapsed, corner + 1) == (vertex_angle_spec(elapsed, corner) + CORNER_STEP)
            % (FULL_TURN as int),
        vertex_angle_spec(elapsed, corner + 3) == vertex_angle_spec(elapsed, corner),
{
}

/// At the start the first corner has the angle zero: it points straight up.
pub proof fn lemma_first_corner_starts_up()
    ensures
        vertex_angle_spec(0, 0) == 0,
{
}

impl Frame {
    /// The steps of a frame drawn into `image`, in their order: the image
    /// becomes the target of drawing; the render pass begins and clears it;
    /// the one draw call; the render pass ends and stores what was drawn;
    /// the image becomes ready to be shown.
    pub open spec fn steps_in_order(&self, image: u32) -> Seq<Step> {
        seq![
            Step::Transition {
                image,
                from: ImageAccess::Undefined,
                to: ImageAccess::ColorAttachment,
            },
            Step::BeginRendering { image, load_op: self.load_op },
            Step::Draw { pipeline: self.pipeline, command: self.command, param: self.param },
            Step::EndRendering { store_op: self.store_op },
            Step::Transition { image, from: ImageAccess::ColorAttachment, to: ImageAccess::Present },
        ]
    }

    /// Whether this is the frame that `renderer` submits for `vertices`,
    /// drawn into `image`, from a table that stood at `before`: one color
    /// attachment of the renderer's format, cleared to black and stored; one
    /// draw with the renderer's pipeline, of one instance of as many
    /// vertices as there are, read from a buffer that did not exist before,
    /// through a reference of the scope that this frame opened; the steps in
    /// their order; each vertex at its position in the plane, with its own
    /// color.
    pub open spec fn is_frame_of(
        &self,
        renderer: &TriangleRenderer,
        image: u32,
        before: DescriptorsView,
        vertices: Seq<Vertex>,
    ) -> bool {
        &&& attachment_formats(self.format.color_attachments) == seq![renderer.rt_format()]
        &&& self.format.depth_attachment is None
        &&& self.pipeline == renderer.pipeline()
        &&& self.load_op == LoadOp::Clear(ColorEnum::Black.color_spec())
        &&& self.store_op == StoreOp::Store
        &&& self.command == (DrawIndirectCommand {
            vertex_count: vertices.len() as u32,
            instance_count: 1,
            first_vertex: 0,
            first_instance: 0,
        })
        &&& !before.is_live(self.param.vertices.id())
        &&& self.param.vertices.scope() == before.epoch + 1
        &&& self.steps@ == self.steps_in_order(image)
        &&& self.positions@ == vertices.map_values(|vertex: Vertex| vertex.clip_position())
        &&& self.colors@ == vertices.map_values(|vertex: Vertex| vertex.color)
    }
}

impl TriangleRenderer {
    /// The format of the image that the renderer draws into.
    pub closed spec fn rt_format(&self) -> Format {
        self.rt_format.rt_format()
    }

    /// The fixed state of the renderer's pipeline.
    pub closed spec fn pipeline(&self) -> GraphicsPipelineCreateInfo {
        self.pipeline
    }

    /// The time at which the renderer was made, in microseconds.
    pub closed spec fn timer(&self) -> u64 {
        self.timer
    }

    /// The time since the renderer was made; zero if `now` lies before that.
    pub open spec fn elapsed(&self, now: u64) -> int {
        if now >= self.timer() {
            now - self.timer()
        } else {
            0
        }
    }

    /// A renderer for images of the format `rt_format`, made at the time `now`.
    pub fn new(rt_format: Format, now: u64) -> (renderer: TriangleRenderer)
        ensures
            renderer.rt_format() == rt_format,
            renderer.pipeline() == triangle_pipeline_spec(),
            renderer.timer() == now,
    {
        let rt_format = TriangleRendererRTFormat::new(rt_format);
        let pipeline = GraphicsPipelineCreateInfo {
            topology: PrimitiveTopology::TriangleList,
            polygon_mode: PolygonMode::Fill,
            front_face: FrontFace::CounterClockwise,
            cull_mode: CullMode::Back,
            depth_stencil: DepthStencilState {
                depth_test: false,
                depth_write: false,
                stencil_test: false,
            },
            color_write_mask: ColorComponents { r: true, g: true, b: true, a: true },
        };
        TriangleRenderer { rt_format, pipeline, timer: now }
    }

    pub fn pipeline_info(&self) -> (pipeline: GraphicsPipelineCreateInfo)
        ensures
            pipeline == self.pipeline(),
    {
        self.pipeline
    }

    /// The three vertices of the frame at the time `now`. The corner `k`
    /// stands at the angle `vertex_angle_spec(elapsed, k)`, and `direction`
    /// says where on the plane that is: for the turning triangle, at the
    /// point of the unit circle with the sine of the angle as its first
    /// coordinate and the cosine as its second. The colors do not depend on
    /// the time.
    pub fn generate_vertices<F: Fn(u32) -> Vec2>(&self, now: u64, direction: F) -> (vertices: [Vertex; 3])
        requires
            forall|angle: u32| angle < FULL_TURN ==> call_requires(direction, (angle,)),
        ensures
            forall|corner: int|
                0 <= corner < 3 ==> call_ensures(
                    direction,
                    (vertex_angle_spec(self.elapsed(now), corner) as u32,),
                    #[trigger] vertices[corner].position,
                ),
            forall|corner: int|
                0 <= corner < 3 ==> #[trigger] vertices[corner].color == vertex_color_spec(corner),
    {
        let elapsed: u64 = if now >= self.timer {
            now - self.timer
        } else {
            0
        };
        let first = direction(vertex_angle(elapsed, 0));
        let second = direction(vertex_angle(elapsed, 1));
        let third = direction(vertex_angle(elapsed, 2));
        [
            Vertex::new(first, Vec4::new(ONE, 0, 0, ONE)),
            Vertex::new(second, Vec4::new(0, ONE, 0, ONE)),
            Vertex::new(third, Vec4::new(0, 0, ONE, ONE)),
        ]
    }

    /// Draws one frame into a fresh image and makes the image ready to be
    /// shown. The vertices go into a buffer of their own, which lives for
    /// this frame only: the table holds the same buffers afterwards as
    /// before, and no reference that the frame used is valid any more.
    pub fn draw(&self, descriptors: &mut Descriptors, rt: RenderTarget, vertices: [Vertex; 3]) -> (result:
        Result<(RenderTarget, Frame), DrawError>)
        requires
            old(descriptors).wf(),
            rt.access() == ImageAccess::Undefined,
        ensures
            final(descriptors).wf(),
            final(descriptors)@.buffers == old(descriptors)@.buffers,
            result is Err <==> old(descriptors)@.recording || old(descriptors)@.epoch == u64::MAX,
            result is Err ==> final(descriptors)@ == old(descriptors)@,
            result matches Ok((target, frame)) ==> {
                &&& target.image() == rt.image()
                &&& target.access() == ImageAccess::Present
                &&& final(descriptors)@.epoch == old(descriptors)@.epoch + 1
                &&& !final(descriptors)@.recording
                &&& frame.is_frame_of(self, rt.image(), old(descriptors)@, vertices@)
            },
    {
        let ghost before = descriptors@;
        let scope = match descriptors.begin_execution() {
            Some(scope) => scope,
            None => {
                return Err(DrawError::ExecutionUnavailable);
            },
        };
        let mut uploaded: Vec<Vertex> = Vec::new();
        let mut corner: usize = 0;
        while corner < VERTEX_CNT
            invariant
                corner <= VERTEX_CNT,
                uploaded@ == vertices@.subrange(0, corner as int),
            decreases VERTEX_CNT - corner,
        {
            uploaded.push(vertices[corner]);
            corner += 1;
        }
        let buffer = descriptors.alloc_vertices(uploaded);
        let mut recording = Recording::new();
        let rt = rt.access_dont_care(&mut recording);
        let format = self.rt_format.to_render_pass_format();
        let load_op = LoadOp::Clear(ColorEnum::Black.color());
        let command = DrawIndirectCommand {
            vertex_count: VERTEX_CNT as u32,
            instance_count: 1,
            first_vertex: 0,
            first_instance: 0,
        };
        let param = Param { vertices: buffer.to_transient(&scope) };
        recording.begin_rendering(&rt, load_op);
        recording.draw(self.pipeline, command, param);
        let mut positions: Vec<Vec4> = Vec::new();
        let mut colors: Vec<Vec4> = Vec::new();
        let mut index: u32 = 0;
        while index < command.vertex_count
            invariant
                index <= command.vertex_count,
                command.vertex_count == 3,
                param.valid_for(descriptors@, 3),
                descriptors@.vertices(param.vertices.id()) == vertices@,
                positions@ == vertices@.subrange(0, index as int).map_values(
                    |vertex: Vertex| vertex.clip_position(),
                ),
                colors@ == vertices@.subrange(0, index as int).map_values(
                    |vertex: Vertex| vertex.color,
                ),
            decreases command.vertex_count - index,
        {
            let mut position = Vec4::new(0, 0, 0, 0);
            let mut vertex_color = Vec4::new(0, 0, 0, 0);
            let mut out_color = Vec4::new(0, 0, 0, 0);
            triangle_vertex(descriptors, &param, index, &mut position, &mut vertex_color);
            triangle_fragment(&param, vertex_color, &mut out_color);
            positions.push(position);
            colors.push(out_color);
            proof {
                assert(positions@ =~= vertices@.subrange(0, index + 1).map_values(
                    |vertex: Vertex| vertex.clip_position(),
                ));
                assert(colors@ =~= vertices@.subrange(0, index + 1).map_values(
                    |vertex: Vertex| vertex.color,
                ));
            }
            index += 1;
        }
        recording.end_rendering(StoreOp::Store);
        let rt = rt.transition_present(&mut recording);
        let steps = recording.finish();
        descriptors.end_execution(scope);
        proof {
            let closed = descriptors@;
            assert(!closed.referenced(buffer.id())) by {
                if closed.referenced(buffer.id()) {
                    let holder = choose|holder: int| closed.holds_reference(holder, buffer.id());
                }
            }
        }
        descriptors.release(buffer);
        let frame = Frame {
            format,
            pipeline: self.pipeline,
            load_op,
            store_op: StoreOp::Store,
            command,
            param,
            steps,
            positions,
            colors,
        };
        assert(frame.steps@ =~= frame.steps_in_order(rt.image()));
        Ok((rt, frame))
    }
}

} // verus!
