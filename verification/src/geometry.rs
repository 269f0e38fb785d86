//! The shared star mesh: one centre vertex, a ring of outer vertices, and the
//! triangles that join each outer vertex to the one two places further round.

use vstd::prelude::*;
use vstd::arithmetic::div_mod::{lemma_small_mod, lemma_mod_sub_multiples_vanish};
use crate::buffer::{BufferPlan, BufferUsage};
use crate::vertex::{star_vertex_seq, star_vertices, Vertex, MAX_POINTS, STAR_POINTS};

verus! {

/// How many ring positions ahead the third corner of each triangle lies.
pub const STAR_SKIP: u16 = 2;

/// Bytes that one index occupies.
pub const INDEX_SIZE: u64 = 2;

/// Position on the ring of the third corner of triangle `i`.
pub open spec fn skip_ahead(n: int, i: int) -> int {
    (i + STAR_SKIP as int) % n
}

/// The index triple of triangle `i` in a star of `n` outer points: the centre,
/// outer vertex `i`, and the outer vertex two positions further round the ring.
pub open spec fn triangle_at(n: int, i: int) -> (int, int, int) {
    (0, 1 + i, 1 + skip_ahead(n, i))
}

/// The index at position `k` of the flattened triangle list.
pub open spec fn index_at(n: int, k: int) -> int {
    let t = triangle_at(n, k / 3);
    if k % 3 == 0 {
        t.0
    } else if k % 3 == 1 {
        t.1
    } else {
        t.2
    }
}

/// The whole index sequence of a star with `n` outer points.
pub open spec fn star_index_seq(n: int) -> Seq<u16> {
    Seq::new((3 * n) as nat, |k: int| index_at(n, k) as u16)
}

/// A star with `n` outer points has `n + 1` vertices and `3 n` indices, and
/// every index names one of its vertices.
pub proof fn lemma_star_counts(n: int)
    requires
        3 <= n <= MAX_POINTS,
    ensures
        star_vertex_seq(n).len() == n + 1,
        star_index_seq(n).len() == 3 * n,
        forall|k: int| 0 <= k < 3 * n ==> 0 <= (#[trigger] star_index_seq(n)[k]) <= n,
{
    assert forall|k: int| 0 <= k < 3 * n implies 0 <= (#[trigger] star_index_seq(n)[k]) <= n by {
        lemma_skip_ahead(n, k / 3);
    }
}

/// Stepping two places round a ring of `n` wraps at most once.
pub proof fn lemma_skip_ahead(n: int, i: int)
    requires
        3 <= n,
        0 <= i < n,
    ensures
        skip_ahead(n, i) == if i + 2 < n {
            i + 2
        } else {
            i + 2 - n
        },
        0 <= skip_ahead(n, i) < n,
        skip_ahead(n, i) != i,
{
    if i + 2 < n {
        lemma_small_mod((i + 2) as nat, n as nat);
    } else {
        lemma_mod_sub_multiples_vanish(i + 2, n);
        lemma_small_mod((i + 2 - n) as nat, n as nat);
    }
}

/// Every triangle of the star has three different corners, all of them
/// vertices of the mesh.
pub proof fn lemma_triangles_are_proper(n: int, i: int)
    requires
        3 <= n,
        0 <= i < n,
    ensures
        triangle_at(n, i).0 == 0,
        1 <= triangle_at(n, i).1 <= n,
        1 <= triangle_at(n, i).2 <= n,
        triangle_at(n, i).1 != triangle_at(n, i).2,
{
    lemma_skip_ahead(n, i);
}

/// No two triangles end at the same outer vertex.
pub proof fn lemma_third_corners_differ(n: int, i: int, j: int)
    requires
        3 <= n,
        0 <= i < j < n,
    ensures
        triangle_at(n, i).2 != triangle_at(n, j).2,
{
    lemma_skip_ahead(n, i);
    lemma_skip_ahead(n, j);
}

/// Every outer vertex is the third corner of some triangle.
pub proof fn lemma_every_outer_vertex_is_reached(n: int, v: int)
    requires
        3 <= n,
        1 <= v <= n,
    ensures
        exists|i: int| 0 <= i < n && (#[trigger] triangle_at(n, i)).2 == v,
{
    let i = if v >= 3 {
        v - 3
    } else {
        v - 3 + n
    };
    lemma_skip_ahead(n, i);
    assert(triangle_at(n, i).2 == v);
}

/// Builds the index list of a star with `n` outer points: for each outer
/// vertex in turn the centre, that vertex, and the vertex two places ahead.
pub fn star_indices(n: u16) -> (indices: Vec<u16>)
    requires
        3 <= n,
    ensures
        indices@ == star_index_seq(n as int),
        indices@.len() == 3 * n,
        forall|k: int| 0 <= k < indices@.len() ==> (#[trigger] indices@[k]) <= n,
{
    let mut indices: Vec<u16> = Vec::new();
    let mut i: u16 = 0;
    while i < n
        invariant
            3 <= n,
            i <= n,
            indices@.len() == 3 * i,
            forall|k: int| 0 <= k < 3 * i ==> (#[trigger] indices@[k]) == index_at(n as int, k),
            forall|k: int| 0 <= k < 3 * i ==> (#[trigger] indices@[k]) <= n,
        decreases n - i,
    {
        let ahead: u32 = (i as u32 + STAR_SKIP as u32) % (n as u32);
        let current: u16 = 1 + i;
        let next: u16 = 1 + (ahead as u16);
        indices.push(0);
        indices.push(current);
        indices.push(next);
        i = i + 1;
    }
    assert(indices@ =~= star_index_seq(n as int));
    indices
}

/// A mesh: its vertices and the indices that group them into triangles.
#[derive(Clone, Debug, PartialEq, Eq)]
pub struct StarMesh {
    pub vertices: Vec<Vertex>,
    pub indices: Vec<u16>,
}

impl StarMesh {
    /// Whether this is the star with `n` outer points.
    pub open spec fn is_star(&self, n: int) -> bool {
        &&& self.vertices@ == star_vertex_seq(n)
        &&& self.indices@ == star_index_seq(n)
    }

    /// Whether the indices come in whole triangles and each names a vertex.
    pub open spec fn is_closed(&self) -> bool {
        &&& self.indices@.len() % 3 == 0
        &&& forall|k: int|
            0 <= k < self.indices@.len() ==> (#[trigger] self.indices@[k]) < self.vertices@.len()
    }

    /// Number of vertices.
    pub fn vertex_count(&self) -> (count: usize)
        ensures
            count == self.vertices@.len(),
    {
        self.vertices.len()
    }

    /// Number of indices.
    pub fn index_count(&self) -> (count: usize)
        ensures
            count == self.indices@.len(),
    {
        self.indices.len()
    }
}

/// Builds the star with `n` outer points: `n + 1` vertices and `3 n` indices.
pub fn star_mesh(n: u16) -> (mesh: StarMesh)
    requires
        3 <= n,
    ensures
        mesh.is_star(n as int),
        mesh.is_closed(),
        mesh.vertices@.len() == n + 1,
        mesh.indices@.len() == 3 * n,
{
    let vertices = star_vertices(n);
    let indices = star_indices(n);
    StarMesh { vertices, indices }
}

/// Builds the five-pointed star that the renderer draws: 6 vertices and the
/// 15 indices of its five triangles.
pub fn create_star_vertices() -> (mesh: (Vec<Vertex>, Vec<u16>))
    ensures
        mesh.0@ == star_vertex_seq(STAR_POINTS as int),
        mesh.1@ == star_index_seq(STAR_POINTS as int),
        mesh.0@.len() == STAR_POINTS + 1,
        mesh.1@.len() == 3 * STAR_POINTS,
        forall|k: int| 0 <= k < mesh.1@.len() ==> (#[trigger] mesh.1@[k]) < mesh.0@.len(),
{
    let mesh = star_mesh(STAR_POINTS);
    (mesh.vertices, mesh.indices)
}

/// The low and the high byte of an index.
pub open spec fn low_byte(index: u16) -> u8 {
    (index % 256) as u8
}

pub open spec fn high_byte(index: u16) -> u8 {
    (index / 256) as u8
}

/// The indices as bytes, low byte of each index first.
pub open spec fn little_endian_bytes(indices: Seq<u16>) -> Seq<u8> {
    Seq::new(
        2 * indices.len(),
        |k: int|
            if k % 2 == 0 {
                low_byte(indices[k / 2])
            } else {
                high_byte(indices[k / 2])
            },
    )
}

/// The indices as bytes, high byte of each index first.
pub open spec fn big_endian_bytes(indices: Seq<u16>) -> Seq<u8> {
    Seq::new(
        2 * indices.len(),
        |k: int|
            if k % 2 == 0 {
                high_byte(indices[k / 2])
            } else {
                low_byte(indices[k / 2])
            },
    )
}

/// Reinterprets the indices as bytes with `bytemuck::cast_slice`.
/// Trusted: that the result holds the two bytes of each index, in order, in
/// the byte order of the machine, which is either little or big endian.
#[verifier::external_body]
fn index_bytes(indices: &Vec<u16>) -> (bytes: Vec<u8>)
    ensures
        bytes@ == little_endian_bytes(indices@) || bytes@ == big_endian_bytes(indices@),
{
    bytemuck::cast_slice::<u16, u8>(indices.as_slice()).to_vec()
}

/// What the index buffer must be and what it is filled with: two bytes for
/// each index in the machine's byte order, usable as an index buffer only.
pub fn index_buffer(indices: &Vec<u16>) -> (out: (BufferPlan, Vec<u8>))
    requires
        indices@.len() <= u32::MAX,
    ensures
        out.0.size == INDEX_SIZE * indices@.len(),
        out.0.usage == BufferUsage::index_only(),
        out.1@.len() == out.0.size,
        out.1@ == little_endian_bytes(indices@) || out.1@ == big_endian_bytes(indices@),
{
    let bytes = index_bytes(indices);
    let count: u64 = indices.len() as u64;
    (BufferPlan { size: INDEX_SIZE * count, usage: BufferUsage::index() }, bytes)
}

} // verus!
