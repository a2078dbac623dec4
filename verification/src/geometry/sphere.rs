//! The sphere: a grid of stacks from pole to pole and sectors around the
//! axis, triangulated quad by quad.

use crate::geometry::utility::{
    grid_len, grid_vertex_count, spherical_indices, spherical_indices_spec,
};
use crate::space::{
    white, Colour, GeometryError, Mesh, Normal, Point, Ratio, TexCoord, Vertex,
    VerticesAndIndices, MAX_INDEXED_VERTICES,
};
use vstd::arithmetic::div_mod::lemma_fundamental_div_mod_converse;
use vstd::prelude::*;

verus! {

/// The vertex on stack `stack` and sector `sector` of a sphere's grid. Its
/// texture coordinate runs from 0 to 1 once around the axis and from 0 at the
/// top pole to 1 at the bottom pole.
pub open spec fn grid_vertex(sector_count: u32, stack_count: u32, stack: int, sector: int) -> Vertex {
    Vertex {
        pos: Point::Spherical { stack: stack as u32, sector: sector as u32 },
        colour: white(),
        normal: Normal::Radial,
        tex_coord: TexCoord::At {
            u: Ratio { num: sector as u32, den: sector_count },
            v: Ratio { num: stack as u32, den: stack_count },
        },
    }
}

/// Vertex number `k` of a sphere: the stacks follow one another from the top
/// pole, and within a stack the sectors from angle zero. Each stack has
/// `sector_count + 1` vertices: the last lies where the first does, with the
/// texture coordinate of the far edge.
pub open spec fn sphere_vertex(sector_count: u32, stack_count: u32, k: int) -> Vertex {
    grid_vertex(sector_count, stack_count, k / (sector_count + 1), k % (sector_count + 1))
}

/// The mesh of a sphere with the given numbers of sectors and stacks.
pub open spec fn sphere_mesh(sector_count: u32, stack_count: u32) -> Mesh {
    Mesh {
        vertices: Seq::new(
            grid_vertex_count(sector_count, stack_count) as nat,
            |k: int| sphere_vertex(sector_count, stack_count, k),
        ),
        indices: spherical_indices_spec(sector_count, stack_count),
    }
}

/// The grid has more vertices than 16-bit indices can address.
pub open spec fn sphere_too_large(sector_count: u32, stack_count: u32) -> bool {
    grid_vertex_count(sector_count, stack_count) > MAX_INDEXED_VERTICES
}

/// The vertex on stack `stack` and sector `sector` is vertex number
/// `stack * (sector_count + 1) + sector` of the sphere.
pub proof fn lemma_sphere_vertex_at(sector_count: u32, stack_count: u32, stack: int, sector: int)
    requires
        0 <= stack <= stack_count,
        0 <= sector <= sector_count,
    ensures
        0 <= stack * (sector_count + 1) + sector < grid_vertex_count(sector_count, stack_count),
        sphere_vertex(sector_count, stack_count, stack * (sector_count + 1) + sector)
            == grid_vertex(sector_count, stack_count, stack, sector),
{
    let row = sector_count + 1;
    let k = stack * row + sector;
    assert(0 <= stack * row) by (nonlinear_arith)
        requires
            0 <= stack,
            0 < row,
    ;
    assert((stack + 1) * row <= (stack_count + 1) * row) by (nonlinear_arith)
        requires
            stack + 1 <= stack_count + 1,
            0 < row,
    ;
    assert((stack + 1) * row == stack * row + row) by (nonlinear_arith);
    lemma_fundamental_div_mod_converse(k, row, stack, sector);
}

/// A sphere has `(stack_count + 1) * (sector_count + 1)` vertices. The
/// texture coordinates of the first stack, at the top pole, run from sector 0
/// to sector `sector_count` across the texture at height 0 of `stack_count`,
/// and those of the last stack, at the bottom pole, at height `stack_count`
/// of `stack_count`: the full height.
pub proof fn lemma_sphere_poles(sector_count: u32, stack_count: u32, sector: int)
    requires
        0 <= sector <= sector_count,
    ensures
        sphere_mesh(sector_count, stack_count).vertices.len() == (stack_count + 1) * (sector_count
            + 1),
        0 <= sector < sphere_mesh(sector_count, stack_count).vertices.len(),
        0 <= stack_count * (sector_count + 1) + sector < sphere_mesh(
            sector_count,
            stack_count,
        ).vertices.len(),
        sphere_mesh(sector_count, stack_count).vertices[sector].tex_coord == (TexCoord::At {
            u: Ratio { num: sector as u32, den: sector_count },
            v: Ratio { num: 0, den: stack_count },
        }),
        sphere_mesh(sector_count, stack_count).vertices[stack_count * (sector_count + 1)
            + sector].tex_coord == (TexCoord::At {
            u: Ratio { num: sector as u32, den: sector_count },
            v: Ratio { num: stack_count, den: stack_count },
        }),
{
    lemma_sphere_vertex_at(sector_count, stack_count, 0, sector);
    lemma_sphere_vertex_at(sector_count, stack_count, stack_count as int, sector);
    assert(0 * (sector_count + 1) + sector == sector) by (nonlinear_arith);
}

/// The triangle list of a grid has fewer than six indices per vertex.
pub proof fn lemma_grid_len_bound(sector_count: int, stack_count: int)
    requires
        0 <= sector_count,
        0 <= stack_count,
    ensures
        0 <= grid_len(sector_count, stack_count, stack_count) <= 6 * ((stack_count + 1) * (
        sector_count + 1)),
{
    if stack_count >= 2 {
        assert(0 <= 6 * sector_count * (stack_count - 1) <= 6 * ((stack_count + 1) * (sector_count
            + 1))) by (nonlinear_arith)
            requires
                0 <= sector_count,
                2 <= stack_count,
        ;
    } else {
        assert(0 <= (stack_count + 1) * (sector_count + 1)) by (nonlinear_arith)
            requires
                0 <= sector_count,
                0 <= stack_count,
        ;
    }
}

/// Generates a sphere of `sector_count` sectors and `stack_count` stacks, or
/// fails with `TooManyVertices` where its `(stack_count + 1) * (sector_count +
/// 1)` vertices are more than 16-bit indices can address.
pub fn sphere(sector_count: u32, stack_count: u32) -> (r: Result<VerticesAndIndices, GeometryError>)
    ensures
        sphere_too_large(sector_count, stack_count) ==> r == Err::<
            VerticesAndIndices,
            GeometryError,
        >(GeometryError::TooManyVertices),
        !sphere_too_large(sector_count, stack_count) ==> (r matches Ok(m) && m@ == sphere_mesh(
            sector_count,
            stack_count,
        ) && m.well_formed()),
{
    let ghost s = sector_count as int;
    let ghost t = stack_count as int;
    if sector_count >= MAX_INDEXED_VERTICES || stack_count >= MAX_INDEXED_VERTICES {
        assert((t + 1) * (s + 1) > MAX_INDEXED_VERTICES) by (nonlinear_arith)
            requires
                s >= MAX_INDEXED_VERTICES || t >= MAX_INDEXED_VERTICES,
                0 <= s,
                0 <= t,
        ;
        return Err(GeometryError::TooManyVertices);
    }
    let row: u64 = sector_count as u64 + 1;
    let rows: u64 = stack_count as u64 + 1;
    assert(rows * row <= 0x1_0000 * 0x1_0000) by (nonlinear_arith)
        requires
            rows <= 0x1_0000,
            row <= 0x1_0000,
    ;
    if rows * row > MAX_INDEXED_VERTICES as u64 {
        return Err(GeometryError::TooManyVertices);
    }
    let mut vertices: Vec<Vertex> = Vec::new();
    let mut i: u32 = 0;
    while i <= stack_count
        invariant
            s == sector_count,
            t == stack_count,
            (t + 1) * (s + 1) <= MAX_INDEXED_VERTICES,
            stack_count < MAX_INDEXED_VERTICES,
            sector_count < MAX_INDEXED_VERTICES,
            i <= stack_count + 1,
            vertices@ == Seq::new(
                (i * (s + 1)) as nat,
                |k: int| sphere_vertex(sector_count, stack_count, k),
            ),
        decreases stack_count + 1 - i,
    {
        let mut j: u32 = 0;
        while j <= sector_count
            invariant
                s == sector_count,
                t == stack_count,
                (t + 1) * (s + 1) <= MAX_INDEXED_VERTICES,
                stack_count < MAX_INDEXED_VERTICES,
                sector_count < MAX_INDEXED_VERTICES,
                i <= stack_count,
                j <= sector_count + 1,
                vertices@ == Seq::new(
                    (i * (s + 1) + j) as nat,
                    |k: int| sphere_vertex(sector_count, stack_count, k),
                ),
            decreases sector_count + 1 - j,
        {
            proof {
                lemma_sphere_vertex_at(sector_count, stack_count, i as int, j as int);
            }
            vertices.push(
                Vertex::new(
                    Point::Spherical { stack: i, sector: j },
                    Colour::white(),
                    Normal::Radial,
                    TexCoord::At {
                        u: Ratio { num: j, den: sector_count },
                        v: Ratio { num: i, den: stack_count },
                    },
                ),
            );
            assert(vertices@ =~= Seq::new(
                (i * (s + 1) + j + 1) as nat,
                |k: int| sphere_vertex(sector_count, stack_count, k),
            ));
            j += 1;
        }
        assert((i + 1) * (s + 1) == i * (s + 1) + s + 1) by (nonlinear_arith);
        i += 1;
    }
    let indices = spherical_indices(sector_count, stack_count);
    proof {
        lemma_grid_len_bound(s, t);
    }
    assert(vertices@.len() == (t + 1) * (s + 1));
    Ok(VerticesAndIndices::from_parts(vertices, indices))
}

} // verus!
