//! Vertices of the star mesh, described exactly: a vertex is the centre or a
//! point on the circle around it, at an angle given as a fraction of a turn.

use vstd::prelude::*;
use crate::buffer::{BufferPlan, BufferUsage};
use crate::layout::{
    lemma_packed_size_push, packed_layout, Attribute, AttributeFormat, BufferLayout, LayoutView,
    Slot, StepMode,
};

verus! {

/// Number of outer points of the star that is drawn.
pub const STAR_POINTS: u16 = 5;

/// Radius of the circle on which the outer points lie.
pub const STAR_RADIUS: u16 = 1;

/// Most outer points a mesh may have while 16-bit indices can still name
/// every vertex.
pub const MAX_POINTS: u16 = 65535;

/// An angle as `numerator / denominator` of a full turn, counter-clockwise
/// from the positive x axis.
#[derive(Clone, Copy, Debug, PartialEq, Eq, Structural)]
pub struct TurnFraction {
    pub numerator: i32,
    pub denominator: i32,
}

/// One vertex of the shared geometry.
#[derive(Clone, Copy, Debug, PartialEq, Eq, Structural)]
pub enum Vertex {
    /// The origin.
    Center,
    /// The point at distance `STAR_RADIUS` from the origin in direction `angle`.
    Outer { angle: TurnFraction },
}

/// Direction of outer point `i` of `n`: a quarter turn below the x axis for
/// the first, then `1/n` of a turn further for each following one.
pub open spec fn outer_angle(n: int, i: int) -> TurnFraction {
    TurnFraction { numerator: (4 * i - n) as i32, denominator: (4 * n) as i32 }
}

/// Vertex `k` of a star with `n` outer points: the centre first, then the
/// outer points in order.
pub open spec fn star_vertex(n: int, k: int) -> Vertex {
    if k == 0 {
        Vertex::Center
    } else {
        Vertex::Outer { angle: outer_angle(n, k - 1) }
    }
}

/// All `n + 1` vertices of a star with `n` outer points.
pub open spec fn star_vertex_seq(n: int) -> Seq<Vertex> {
    Seq::new((n + 1) as nat, |k: int| star_vertex(n, k))
}

/// The first outer point lies a quarter turn clockwise from the x axis, and
/// each following point lies exactly `1/n` of a turn further counter-clockwise.
pub proof fn lemma_outer_points_evenly_spaced(n: int, i: int)
    requires
        3 <= n <= MAX_POINTS,
        0 <= i < n,
    ensures
        outer_angle(n, i).denominator == 4 * n,
        outer_angle(n, i).numerator == 4 * i - n,
        4 * outer_angle(n, 0).numerator == -outer_angle(n, 0).denominator,
        i + 1 < n ==> n * (outer_angle(n, i + 1).numerator - outer_angle(n, i).numerator)
            == outer_angle(n, i).denominator,
{
    assert(n * 4 == 4 * n) by (nonlinear_arith);
}

/// Any two outer points of one star lie less than a full turn apart, so no two
/// of them coincide.
pub proof fn lemma_outer_points_distinct(n: int, i: int, j: int)
    requires
        3 <= n <= MAX_POINTS,
        0 <= i < j < n,
    ensures
        0 < outer_angle(n, j).numerator - outer_angle(n, i).numerator < outer_angle(
            n,
            i,
        ).denominator,
        outer_angle(n, j).denominator == outer_angle(n, i).denominator,
{
}

/// Builds the vertices of a star with `n` outer points.
pub fn star_vertices(n: u16) -> (vertices: Vec<Vertex>)
    requires
        3 <= n,
    ensures
        vertices@ == star_vertex_seq(n as int),
        vertices@.len() == n + 1,
{
    let mut vertices: Vec<Vertex> = Vec::new();
    vertices.push(Vertex::Center);
    let denominator: i32 = 4 * (n as i32);
    let mut i: u16 = 0;
    while i < n
        invariant
            3 <= n,
            i <= n,
            denominator == 4 * n,
            vertices@.len() == i + 1,
            forall|k: int| 0 <= k <= i ==> (#[trigger] vertices@[k]) == star_vertex(n as int, k),
        decreases n - i,
    {
        let numerator: i32 = 4 * (i as i32) - (n as i32);
        vertices.push(Vertex::Outer { angle: TurnFraction { numerator, denominator } });
        i = i + 1;
    }
    assert(vertices@ =~= star_vertex_seq(n as int));
    vertices
}

/// The per-vertex stream: advancing per vertex, 8 bytes apart, carrying one
/// 2D position at offset 0 for shader location 0.
pub open spec fn vertex_layout() -> LayoutView {
    LayoutView {
        array_stride: VERTEX_STRIDE,
        step_mode: StepMode::Vertex,
        attributes: seq![
            Attribute { format: AttributeFormat::Float32x2, offset: 0, shader_location: 0 },
        ],
    }
}

/// Bytes that one vertex occupies in the per-vertex stream.
pub const VERTEX_STRIDE: u64 = 8;

impl Vertex {
    /// The vertices of the five-pointed star: the centre, then the five outer
    /// points.
    pub fn get_vertices() -> (vertices: Vec<Vertex>)
        ensures
            vertices@ == star_vertex_seq(STAR_POINTS as int),
            vertices@.len() == STAR_POINTS + 1,
    {
        star_vertices(STAR_POINTS)
    }

    /// Layout of the per-vertex stream.
    pub fn get_vertex_buffer_layout() -> (layout: BufferLayout)
        ensures
            layout@ == vertex_layout(),
    {
        let mut slots: Vec<Slot> = Vec::new();
        slots.push(Slot { shader_location: 0, format: AttributeFormat::Float32x2 });
        proof {
            let s0 = Seq::<Slot>::empty();
            lemma_packed_size_push(s0, slots@[0]);
            assert(slots@ =~= s0.push(slots@[0]));
            assert(slots@.take(0) =~= s0);
        }
        let layout = packed_layout(&slots, StepMode::Vertex);
        assert(layout.attributes@ =~= vertex_layout().attributes);
        layout
    }

    /// What the buffer holding `vertices` must be: as many bytes as the
    /// vertices take at 8 bytes each, usable as a vertex buffer only.
    pub fn get_vertex_buffer(vertices: &Vec<Vertex>) -> (plan: BufferPlan)
        requires
            vertices@.len() <= MAX_POINTS + 1,
        ensures
            plan.size == VERTEX_STRIDE * vertices@.len(),
            plan.usage == BufferUsage::vertex_only(),
    {
        let count: u64 = vertices.len() as u64;
        BufferPlan { size: VERTEX_STRIDE * count, usage: BufferUsage::vertex() }
    }
}

} // verus!
