//! The vertex and fragment stages of the triangle.

use crate::descriptor::{Descriptors, DescriptorsView, TransientDesc};
use crate::fixed::{Vec2, Vec4, ONE};
use vstd::prelude::*;

verus! {

/// A corner of the triangle: a position in the plane and a color.
#[derive(Copy, Clone, Debug, PartialEq, Eq, Structural)]
pub struct Vertex {
    pub position: Vec2,
    pub color: Vec4,
}

/// The parameters of one draw.
#[derive(Copy, Clone, Debug, PartialEq, Eq, Structural)]
pub struct Param {
    /// The run of vertices to draw.
    pub vertices: TransientDesc,
}

impl Vertex {
    pub fn new(position: Vec2, color: Vec4) -> (vertex: Vertex)
        ensures
            vertex == (Vertex { position, color }),
    {
        Vertex { position, color }
    }

    /// The position that the vertex stage gives to a vertex: its position in
    /// the plane, at depth zero, with the fourth component one.
    pub open spec fn clip_position(self) -> Vec4 {
        Vec4 { x: self.position.x, y: self.position.y, z: 0, w: ONE }
    }
}

impl Param {
    /// Whether the reference is valid and leads to a run of at least `count` vertices.
    pub open spec fn valid_for(&self, table: DescriptorsView, count: int) -> bool {
        &&& table.valid(self.vertices)
        &&& table.data(self.vertices.id()) is Vertices
        &&& count <= table.vertices(self.vertices.id()).len()
    }

    /// Decides `valid_for`, for a caller that cannot know it otherwise.
    pub fn is_valid_for(&self, descriptors: &Descriptors, count: usize) -> (valid: bool)
        ensures
            valid == self.valid_for(descriptors@, count as int),
    {
        match descriptors.vertices_len(&self.vertices) {
            Some(len) => count <= len,
            None => false,
        }
    }
}

/// The vertex stage: reads the vertex at `vertex_index` and hands on its
/// position and its color.
pub fn triangle_vertex(
    descriptors: &Descriptors,
    param: &Param,
    vertex_index: u32,
    out_position: &mut Vec4,
    vertex_color: &mut Vec4,
)
    requires
        param.valid_for(descriptors@, vertex_index + 1),
    ensures
        *final(out_position) == descriptors@.vertices(param.vertices.id())[vertex_index as int].clip_position(),
        *final(vertex_color) == descriptors@.vertices(param.vertices.id())[vertex_index as int].color,
{
    let vertex = descriptors.load_vertex(&param.vertices, vertex_index as usize);
    *out_position = Vec4::from_xy(vertex.position, 0, ONE);
    *vertex_color = vertex.color;
}

/// The fragment stage: passes the interpolated color through unchanged.
pub fn triangle_fragment(_param: &Param, vertex_color: Vec4, out_color: &mut Vec4)
    ensures
        *final(out_color) == vertex_color,
{
    *out_color = vertex_color;
}

} // verus!
