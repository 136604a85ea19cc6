//! The static, subdivided plane that the simulation grid is sampled onto.
use vstd::prelude::*;

use vstd::arithmetic::div_mod::{lemma_fundamental_div_mod, lemma_fundamental_div_mod_converse};

verus! {

/// A vertex of a [`SurfaceMesh`] of resolution `R`, given by its place in the vertex grid.
///
/// Its uv is `(row / R, col / R)`, and for a plane of side `L` its position is
/// `(row * L / R, 0, col * L / R)`: both lie in `[0, 1)` and `[0, L)` respectively.
#[derive(Clone, Copy, Debug, PartialEq, Eq, Structural)]
pub struct SurfaceVertex {
    pub row: u32,
    pub col: u32,
}

/// The vertex stored at position `k` of a mesh of resolution `r`, in row-major order.
pub open spec fn vertex_at(r: int, k: int) -> SurfaceVertex {
    SurfaceVertex { row: (k / r) as u32, col: (k % r) as u32 }
}

/// Corner `j` (0 to 5) of quad `q` of a mesh of resolution `r`, as a vertex index.
///
/// Quads are numbered row-major over the `(r - 1) × (r - 1)` cells. Each cell gives the
/// triangles (bottom left, bottom right, top left) and (bottom right, top right, top left),
/// where "right" is the next column and "top" the next row of vertices: both wind the same
/// way (see [`lemma_consistent_winding`]).
pub open spec fn quad_corner(r: int, q: int, j: int) -> int {
    let bottom_left = (q / (r - 1)) * r + q % (r - 1);
    if j == 0 {
        bottom_left
    } else if j == 1 || j == 3 {
        bottom_left + 1
    } else if j == 2 || j == 5 {
        bottom_left + r
    } else {
        bottom_left + r + 1
    }
}

/// The vertex index stored at position `i` of the index list of a mesh of resolution `r`.
pub open spec fn index_at(r: int, i: int) -> int {
    quad_corner(r, i / 6, i % 6)
}

/// A regular triangulated grid of `resolution × resolution` vertices.
pub struct SurfaceMesh {
    /// Vertices along each axis.
    pub resolution: u32,
    /// The vertices, row by row.
    pub vertices: Vec<SurfaceVertex>,
    /// Three indices per triangle, two triangles per quad.
    pub indices: Vec<u32>,
}

impl SurfaceMesh {
    /// The orientation of triangle `t` in the (row, col) plane of the vertex grid: the cross
    /// product of its second and third corners taken relative to its first.
    pub open spec fn triangle_orientation(&self, t: int) -> int {
        let a = self.vertices@[self.indices@[3 * t] as int];
        let b = self.vertices@[self.indices@[3 * t + 1] as int];
        let c = self.vertices@[self.indices@[3 * t + 2] as int];
        (b.row - a.row) * (c.col - a.col) - (b.col - a.col) * (c.row - a.row)
    }

    /// `self` is the mesh of resolution `r`: `r²` vertices in row-major order and
    /// `6 (r - 1)²` indices, two triangles per quad.
    pub open spec fn is_mesh_of(&self, r: int) -> bool {
        &&& self.resolution == r
        &&& self.vertices@.len() == r * r
        &&& forall|k: int| 0 <= k < r * r ==> #[trigger] self.vertices@[k] == vertex_at(r, k)
        &&& self.indices@.len() == 6 * ((r - 1) * (r - 1))
        &&& forall|i: int|
            0 <= i < self.indices@.len() ==> #[trigger] self.indices@[i] as int == index_at(r, i)
    }

    /// Builds the mesh with `resolution` vertices along each axis.
    pub fn new(resolution: u32) -> (m: Self)
        requires
            resolution >= 1,
            resolution * resolution <= u32::MAX,
        ensures
            m.is_mesh_of(resolution as int),
    {
        let vertices = Self::grid_vertices(resolution);
        let indices = Self::grid_indices(resolution);
        SurfaceMesh { resolution, vertices, indices }
    }

    /// Returns the number of vertices.
    pub fn vertex_count(&self) -> (r: usize)
        ensures
            r == self.vertices@.len(),
    {
        self.vertices.len()
    }

    /// Returns the number of indices to draw.
    pub fn index_count(&self) -> (r: usize)
        ensures
            r == self.indices@.len(),
    {
        self.indices.len()
    }

    fn grid_vertices(resolution: u32) -> (v: Vec<SurfaceVertex>)
        requires
            resolution >= 1,
        ensures
            v@.len() == resolution * resolution,
            forall|k: int|
                0 <= k < resolution * resolution ==> #[trigger] v@[k] == vertex_at(
                    resolution as int,
                    k,
                ),
    {
        let ghost r: int = resolution as int;
        let mut vertices: Vec<SurfaceVertex> = Vec::new();
        let mut row: u32 = 0;
        while row < resolution
            invariant
                row <= resolution,
                r == resolution,
                r >= 1,
                vertices@.len() == row * r,
                forall|k: int| 0 <= k < row * r ==> #[trigger] vertices@[k] == vertex_at(r, k),
            decreases resolution - row,
        {
            let mut col: u32 = 0;
            while col < resolution
                invariant
                    row < resolution,
                    col <= resolution,
                    r == resolution,
                    r >= 1,
                    vertices@.len() == row * r + col,
                    forall|k: int|
                        0 <= k < row * r + col ==> #[trigger] vertices@[k] == vertex_at(r, k),
                decreases resolution - col,
            {
                proof {
                    lemma_fundamental_div_mod_converse(row * r + col, r, row as int, col as int);
                }
                vertices.push(SurfaceVertex { row, col });
                col += 1;
            }
            assert(row * r + r == (row + 1) * r) by (nonlinear_arith);
            row += 1;
        }
        vertices
    }

    fn grid_indices(resolution: u32) -> (v: Vec<u32>)
        requires
            resolution >= 1,
            resolution * resolution <= u32::MAX,
        ensures
            v@.len() == 6 * ((resolution - 1) * (resolution - 1)),
            forall|i: int|
                0 <= i < v@.len() ==> #[trigger] v@[i] as int == index_at(resolution as int, i),
    {
        let ghost r: int = resolution as int;
        let quads: u32 = resolution - 1;
        let ghost m: int = quads as int;
        let mut indices: Vec<u32> = Vec::new();
        let mut row: u32 = 0;
        while row < quads
            invariant
                row <= quads,
                r == resolution,
                m == quads,
                quads == resolution - 1,
                m == r - 1,
                r * r <= u32::MAX,
                indices@.len() == 6 * (row * m),
                forall|i: int|
                    0 <= i < indices@.len() ==> #[trigger] indices@[i] as int == index_at(r, i),
            decreases quads - row,
        {
            let mut col: u32 = 0;
            while col < quads
                invariant
                    row < quads,
                    col <= quads,
                    r == resolution,
                    m == quads,
                    quads == resolution - 1,
                    m == r - 1,
                    r * r <= u32::MAX,
                    indices@.len() == 6 * (row * m + col),
                    forall|i: int|
                        0 <= i < indices@.len() ==> #[trigger] indices@[i] as int == index_at(
                            r,
                            i,
                        ),
                decreases quads - col,
            {
                assert(row * r + col + r + 1 <= r * r) by (nonlinear_arith)
                    requires
                        0 <= row,
                        0 <= col,
                        row + 2 <= r,
                        col + 2 <= r,
                ;
                let bottom_left: u32 = row * resolution + col;
                let top_left: u32 = bottom_left + resolution;
                let ghost q: int = row * m + col;
                let ghost start: int = indices@.len() as int;
                proof {
                    lemma_fundamental_div_mod_converse(q, m, row as int, col as int);
                }
                indices.push(bottom_left);
                indices.push(bottom_left + 1);
                indices.push(top_left);
                indices.push(bottom_left + 1);
                indices.push(top_left + 1);
                indices.push(top_left);
                assert forall|i: int| 0 <= i < indices@.len() implies #[trigger] indices@[i] as int
                    == index_at(r, i) by {
                    if i >= start {
                        lemma_fundamental_div_mod_converse(i, 6, q, i - start);
                    }
                }
                col += 1;
            }
            assert(row * m + m == (row + 1) * m) by (nonlinear_arith);
            row += 1;
        }
        indices
    }
}

/// Every index of the mesh of resolution `r` refers to one of its `r²` vertices.
pub proof fn lemma_index_in_bounds(r: int, i: int)
    requires
        r >= 1,
        0 <= i < 6 * ((r - 1) * (r - 1)),
    ensures
        0 <= index_at(r, i) < r * r,
{
    let m = r - 1;
    let q = i / 6;
    assert(0 <= q < m * m);
    lemma_fundamental_div_mod(q, m);
    let row = q / m;
    let col = q % m;
    assert(row < m) by (nonlinear_arith)
        requires
            q == m * row + col,
            0 <= col < m,
            q < m * m,
    ;
    assert(0 <= row) by (nonlinear_arith)
        requires
            q == m * row + col,
            0 <= col < m,
            q >= 0,
    ;
    assert(row * r + col + r + 1 < r * r) by (nonlinear_arith)
        requires
            0 <= row,
            0 <= col,
            row + 2 <= r,
            col + 2 <= r,
    ;
    assert(0 <= row * r) by (nonlinear_arith)
        requires
            row >= 0,
            r >= 1,
    ;
}

/// A built mesh has `r²` vertices and `6 (r - 1)²` indices, and none of its indices points
/// past the last vertex.
pub proof fn lemma_mesh_in_bounds(mesh: &SurfaceMesh, r: int)
    requires
        r >= 1,
        mesh.is_mesh_of(r),
    ensures
        mesh.vertices@.len() == r * r,
        mesh.indices@.len() == 6 * ((r - 1) * (r - 1)),
        forall|i: int|
            0 <= i < mesh.indices@.len() ==> (#[trigger] mesh.indices@[i] as int)
                < mesh.vertices@.len(),
{
    assert forall|i: int| 0 <= i < mesh.indices@.len() implies (#[trigger] mesh.indices@[i] as int)
        < mesh.vertices@.len() by {
        lemma_index_in_bounds(r, i);
    }
}

/// The first vertex has uv `(0, 0)`, the last `((r - 1) / r, (r - 1) / r)`, and every uv
/// coordinate `row / r` or `col / r` stays below one.
pub proof fn lemma_uv_corners(mesh: &SurfaceMesh, r: int)
    requires
        r >= 1,
        mesh.is_mesh_of(r),
    ensures
        mesh.vertices@[0] == (SurfaceVertex { row: 0, col: 0 }),
        mesh.vertices@[r * r - 1] == (SurfaceVertex { row: (r - 1) as u32, col: (r - 1) as u32 }),
        forall|k: int|
            0 <= k < mesh.vertices@.len() ==> (#[trigger] mesh.vertices@[k]).row < r
                && mesh.vertices@[k].col < r,
{
    assert(r * r >= 1) by (nonlinear_arith)
        requires
            r >= 1,
    ;
    lemma_fundamental_div_mod_converse(0, r, 0, 0);
    assert(r * r - 1 == (r - 1) * r + (r - 1)) by (nonlinear_arith);
    lemma_fundamental_div_mod_converse(r * r - 1, r, r - 1, r - 1);
    assert forall|k: int| 0 <= k < mesh.vertices@.len() implies (#[trigger] mesh.vertices@[k]).row
        < r && mesh.vertices@[k].col < r by {
        lemma_fundamental_div_mod(k, r);
        assert(k / r < r) by (nonlinear_arith)
            requires
                k == r * (k / r) + k % r,
                0 <= k % r < r,
                k < r * r,
        ;
        assert(k / r >= 0) by (nonlinear_arith)
            requires
                k == r * (k / r) + k % r,
                0 <= k % r < r,
                k >= 0,
        ;
    }
}

/// Building the mesh is deterministic: two meshes built with the same resolution hold the
/// same vertices and the same indices.
pub proof fn lemma_mesh_deterministic(first: &SurfaceMesh, second: &SurfaceMesh, r: int)
    requires
        first.is_mesh_of(r),
        second.is_mesh_of(r),
    ensures
        first.vertices@ == second.vertices@,
        first.indices@ == second.indices@,
{
    assert(first.vertices@ =~= second.vertices@);
    assert(first.indices@ =~= second.indices@);
}

/// Every triangle of a built mesh winds the same way as the first: each has orientation
/// `-1` in the (row, col) plane of the vertex grid, so none is degenerate and back-face
/// culling treats them all alike.
pub proof fn lemma_consistent_winding(mesh: &SurfaceMesh, r: int)
    requires
        r >= 1,
        mesh.is_mesh_of(r),
    ensures
        forall|t: int|
            0 <= t < mesh.indices@.len() / 3 ==> #[trigger] mesh.triangle_orientation(t) == -1,
{
    assert forall|t: int| 0 <= t < mesh.indices@.len() / 3 implies #[trigger]
        mesh.triangle_orientation(t) == -1 by {
        lemma_triangle_corners(mesh, r, t);
    }
}

/// Triangle `t` of a built mesh has orientation `-1`: its corners are read off the quad it
/// belongs to and the half of that quad it covers.
proof fn lemma_triangle_corners(mesh: &SurfaceMesh, r: int, t: int)
    requires
        r >= 1,
        mesh.is_mesh_of(r),
        0 <= t < mesh.indices@.len() / 3,
    ensures
        mesh.triangle_orientation(t) == -1,
{
    let m = r - 1;
    lemma_fundamental_div_mod(t, 2);
    let q = t / 2;
    let k = t % 2;
    lemma_fundamental_div_mod_converse(3 * t, 6, q, 3 * k);
    lemma_fundamental_div_mod_converse(3 * t + 1, 6, q, 3 * k + 1);
    lemma_fundamental_div_mod_converse(3 * t + 2, 6, q, 3 * k + 2);
    assert(0 <= q < m * m);
    lemma_fundamental_div_mod(q, m);
    let row = q / m;
    let col = q % m;
    assert(0 <= row < m) by (nonlinear_arith)
        requires
            q == m * row + col,
            0 <= col < m,
            0 <= q < m * m,
    ;
    let bl = row * r + col;
    lemma_fundamental_div_mod_converse(bl, r, row, col);
    lemma_fundamental_div_mod_converse(bl + 1, r, row, col + 1);
    assert(bl + r == (row + 1) * r + col) by (nonlinear_arith)
        requires
            bl == row * r + col,
    ;
    lemma_fundamental_div_mod_converse(bl + r, r, row + 1, col);
    lemma_fundamental_div_mod_converse(bl + r + 1, r, row + 1, col + 1);
    lemma_index_in_bounds(r, 3 * t);
    lemma_index_in_bounds(r, 3 * t + 1);
    lemma_index_in_bounds(r, 3 * t + 2);
    let a = mesh.vertices@[mesh.indices@[3 * t] as int];
    let b = mesh.vertices@[mesh.indices@[3 * t + 1] as int];
    let c = mesh.vertices@[mesh.indices@[3 * t + 2] as int];
    assert(q / (r - 1) == row && q % (r - 1) == col);
    if k == 0 {
        assert(mesh.indices@[3 * t] as int == bl);
        assert(mesh.indices@[3 * t + 1] as int == bl + 1);
        assert(mesh.indices@[3 * t + 2] as int == bl + r);
        assert(a == vertex_at(r, bl));
        assert(b == vertex_at(r, bl + 1));
        assert(c == vertex_at(r, bl + r));
        assert((b.row - a.row) * (c.col - a.col) - (b.col - a.col) * (c.row - a.row) == -1)
            by (nonlinear_arith)
            requires
                a.row == row,
                a.col == col,
                b.row == row,
                b.col == col + 1,
                c.row == row + 1,
                c.col == col,
        ;
    } else {
        assert(mesh.indices@[3 * t] as int == bl + 1);
        assert(mesh.indices@[3 * t + 1] as int == bl + r + 1);
        assert(mesh.indices@[3 * t + 2] as int == bl + r);
        assert(a == vertex_at(r, bl + 1));
        assert(b == vertex_at(r, bl + r + 1));
        assert(c == vertex_at(r, bl + r));
        assert((b.row - a.row) * (c.col - a.col) - (b.col - a.col) * (c.row - a.row) == -1)
            by (nonlinear_arith)
            requires
                a.row == row,
                a.col == col + 1,
                b.row == row + 1,
                b.col == col + 1,
                c.row == row + 1,
                c.col == col,
        ;
    }
}

} // verus!
