//! Index orders and face normals shared by the generators.

use crate::space::{indices_in_range, Normal, MAX_INDEXED_VERTICES};
use vstd::prelude::*;

verus! {

/// The indices of the quad between stacks `i` and `i + 1` and sectors `j` and
/// `j + 1` of a grid with `sector_count + 1` vertices per stack: an upper
/// triangle, left out on the first stack, where it would have no area, and a
/// lower triangle, left out on the last stack for the same reason.
pub open spec fn quad_indices(sector_count: int, stack_count: int, i: int, j: int) -> Seq<u16> {
    let k1 = i * (sector_count + 1) + j;
    let k2 = k1 + sector_count + 1;
    let upper = if i != 0 {
        seq![k1 as u16, k2 as u16, (k1 + 1) as u16]
    } else {
        Seq::<u16>::empty()
    };
    let lower = if i != stack_count - 1 {
        seq![(k1 + 1) as u16, k2 as u16, (k2 + 1) as u16]
    } else {
        Seq::<u16>::empty()
    };
    upper + lower
}

/// The indices of the first `quads` quads of stack `i`.
pub open spec fn row_indices(sector_count: int, stack_count: int, i: int, quads: nat) -> Seq<u16>
    decreases quads,
{
    if quads == 0 {
        Seq::<u16>::empty()
    } else {
        row_indices(sector_count, stack_count, i, (quads - 1) as nat) + quad_indices(
            sector_count,
            stack_count,
            i,
            quads - 1,
        )
    }
}

/// The indices of the first `rows` stacks.
pub open spec fn grid_indices(sector_count: int, stack_count: int, rows: nat) -> Seq<u16>
    decreases rows,
{
    if rows == 0 {
        Seq::<u16>::empty()
    } else {
        grid_indices(sector_count, stack_count, (rows - 1) as nat) + row_indices(
            sector_count,
            stack_count,
            rows - 1,
            sector_count as nat,
        )
    }
}

/// The triangle list of a sphere's grid: stack by stack from the top pole,
/// sector by sector within a stack.
pub open spec fn spherical_indices_spec(sector_count: u32, stack_count: u32) -> Seq<u16> {
    grid_indices(sector_count as int, stack_count as int, stack_count as nat)
}

/// Number of vertices of a grid with the given numbers of sectors and stacks.
pub open spec fn grid_vertex_count(sector_count: u32, stack_count: u32) -> int {
    (stack_count + 1) * (sector_count + 1)
}

/// Number of indices that one quad of stack `i` contributes.
pub open spec fn quad_len(stack_count: int, i: int) -> int {
    (if i != 0 {
        3int
    } else {
        0int
    }) + (if i != stack_count - 1 {
        3int
    } else {
        0int
    })
}

/// Number of indices of the first `rows` stacks: the first and the last stack
/// give one triangle per sector, every stack between them two.
pub open spec fn grid_len(sector_count: int, stack_count: int, rows: int) -> int {
    if rows <= 0 {
        0
    } else if stack_count == 1 {
        0
    } else if rows < stack_count {
        3 * sector_count + 6 * sector_count * (rows - 1)
    } else {
        6 * sector_count * (stack_count - 1)
    }
}

/// A row of quads has as many indices as its quads have together.
pub proof fn lemma_row_indices_len(sector_count: int, stack_count: int, i: int, quads: nat)
    ensures
        row_indices(sector_count, stack_count, i, quads).len() == quads * quad_len(stack_count, i),
    decreases quads,
{
    let q = quad_len(stack_count, i);
    if quads > 0 {
        lemma_row_indices_len(sector_count, stack_count, i, (quads - 1) as nat);
        assert(quad_indices(sector_count, stack_count, i, quads - 1).len() == q);
        assert(quads * q == (quads - 1) * q + q) by (nonlinear_arith);
    } else {
        assert(quads * q == 0) by (nonlinear_arith)
            requires
                quads == 0,
        ;
    }
}

/// The triangle list of the first `rows` stacks has `grid_len` indices.
pub proof fn lemma_grid_indices_len(sector_count: int, stack_count: int, rows: nat)
    requires
        0 <= sector_count,
        rows <= stack_count,
    ensures
        grid_indices(sector_count, stack_count, rows).len() == grid_len(
            sector_count,
            stack_count,
            rows as int,
        ),
    decreases rows,
{
    if rows > 0 {
        let i = rows - 1;
        lemma_grid_indices_len(sector_count, stack_count, i as nat);
        lemma_row_indices_len(sector_count, stack_count, i, sector_count as nat);
        let q = quad_len(stack_count, i);
        assert(sector_count * 3 == 3 * sector_count);
        assert(sector_count * 6 == 6 * sector_count);
        assert(sector_count * 0 == 0);
        assert(sector_count * q == if q == 0 {
            0
        } else if q == 3 {
            3 * sector_count
        } else {
            6 * sector_count
        });
        if stack_count == 1 {
        } else if i == 0 {
            assert(6 * sector_count * 0 == 0);
        } else if rows < stack_count {
            assert(6 * sector_count * (rows - 1) == 6 * sector_count * (i - 1) + 6 * sector_count)
                by (nonlinear_arith)
                requires
                    i == rows - 1,
            ;
        } else {
            assert(6 * sector_count * (stack_count - 1) == 6 * sector_count * (i - 1) + 6
                * sector_count) by (nonlinear_arith)
                requires
                    i == stack_count - 1,
            ;
        }
    }
}

/// In a grid that 16-bit indices can address, no index of a quad is changed
/// by being stored in 16 bits, and each addresses a vertex of the grid.
pub proof fn lemma_quad_in_grid(sector_count: int, stack_count: int, i: int, j: int)
    requires
        0 <= i < stack_count,
        0 <= j < sector_count,
        (stack_count + 1) * (sector_count + 1) <= MAX_INDEXED_VERTICES,
    ensures
        0 <= i * (sector_count + 1) + j,
        i * (sector_count + 1) + j + sector_count + 2 < (stack_count + 1) * (sector_count + 1),
{
    assert(0 <= i * (sector_count + 1)) by (nonlinear_arith)
        requires
            0 <= i,
            0 <= sector_count,
    ;
    assert((i + 2) * (sector_count + 1) <= (stack_count + 1) * (sector_count + 1))
        by (nonlinear_arith)
        requires
            i + 2 <= stack_count + 1,
            0 <= sector_count,
    ;
    assert((i + 2) * (sector_count + 1) == i * (sector_count + 1) + 2 * sector_count + 2)
        by (nonlinear_arith);
}

/// Every index of a row of quads addresses a vertex of the grid.
pub proof fn lemma_row_indices_in_range(sector_count: int, stack_count: int, i: int, quads: nat)
    requires
        0 <= i < stack_count,
        quads <= sector_count,
        (stack_count + 1) * (sector_count + 1) <= MAX_INDEXED_VERTICES,
    ensures
        indices_in_range(
            (stack_count + 1) * (sector_count + 1),
            row_indices(sector_count, stack_count, i, quads),
        ),
    decreases quads,
{
    if quads > 0 {
        lemma_row_indices_in_range(sector_count, stack_count, i, (quads - 1) as nat);
        lemma_quad_in_grid(sector_count, stack_count, i, quads - 1);
    }
}

/// Every index of the triangle list of a grid that 16-bit indices can
/// address is the position of a vertex of the grid.
pub proof fn lemma_grid_indices_in_range(sector_count: int, stack_count: int, rows: nat)
    requires
        0 <= sector_count,
        rows <= stack_count,
        (stack_count + 1) * (sector_count + 1) <= MAX_INDEXED_VERTICES,
    ensures
        indices_in_range(
            (stack_count + 1) * (sector_count + 1),
            grid_indices(sector_count, stack_count, rows),
        ),
    decreases rows,
{
    if rows > 0 {
        lemma_grid_indices_in_range(sector_count, stack_count, (rows - 1) as nat);
        lemma_row_indices_in_range(sector_count, stack_count, rows - 1, sector_count as nat);
    }
}

/// Computes the triangle list of a sphere's grid. Every index addresses one
/// of the grid's `(stack_count + 1) * (sector_count + 1)` vertices.
pub fn spherical_indices(sector_count: u32, stack_count: u32) -> (r: Vec<u16>)
    requires
        grid_vertex_count(sector_count, stack_count) <= MAX_INDEXED_VERTICES,
    ensures
        r@ == spherical_indices_spec(sector_count, stack_count),
        indices_in_range(grid_vertex_count(sector_count, stack_count), r@),
        r@.len() == grid_len(sector_count as int, stack_count as int, stack_count as int),
        r@.len() % 3 == 0,
{
    let ghost s = sector_count as int;
    let ghost t = stack_count as int;
    let ghost count = (t + 1) * (s + 1);
    proof {
        assert(count >= s + 1 && count >= t + 1) by (nonlinear_arith)
            requires
                count == (t + 1) * (s + 1),
                0 <= s,
                0 <= t,
        ;
    }
    let row: u32 = sector_count + 1;
    let mut indices: Vec<u16> = Vec::new();
    let mut i: u32 = 0;
    let mut row_start: u32 = 0;
    while i < stack_count
        invariant
            s == sector_count,
            t == stack_count,
            count == (t + 1) * (s + 1),
            count <= MAX_INDEXED_VERTICES,
            row == s + 1,
            i <= stack_count,
            row_start == i * (s + 1),
            indices@ == grid_indices(s, t, i as nat),
            indices_in_range(count, indices@),
            indices@.len() % 3 == 0,
        decreases stack_count - i,
    {
        let ghost before = indices@;
        let mut j: u32 = 0;
        while j < sector_count
            invariant
                s == sector_count,
                t == stack_count,
                count == (t + 1) * (s + 1),
                count <= MAX_INDEXED_VERTICES,
                row == s + 1,
                i < stack_count,
                j <= sector_count,
                row_start == i * (s + 1),
                indices@ == before + row_indices(s, t, i as int, j as nat),
                indices_in_range(count, indices@),
                indices@.len() % 3 == 0,
            decreases sector_count - j,
        {
            proof {
                lemma_quad_in_grid(s, t, i as int, j as int);
            }
            let ghost row_before = indices@;
            let k1: u32 = row_start + j;
            let k2: u32 = k1 + row;
            if i != 0 {
                indices.push(k1 as u16);
                indices.push(k2 as u16);
                indices.push((k1 + 1) as u16);
            }
            if i != stack_count - 1 {
                indices.push((k1 + 1) as u16);
                indices.push(k2 as u16);
                indices.push((k2 + 1) as u16);
            }
            assert(indices@ =~= row_before + quad_indices(s, t, i as int, j as int));
            assert(indices@ =~= before + row_indices(s, t, i as int, (j + 1) as nat));
            j += 1;
        }
        proof {
            assert((i + 1) * (s + 1) == i * (s + 1) + (s + 1)) by (nonlinear_arith);
            assert((i + 1) * (s + 1) <= (t + 1) * (s + 1)) by (nonlinear_arith)
                requires
                    i + 1 <= t + 1,
                    0 <= s,
            ;
        }
        row_start += row;
        i += 1;
    }
    proof {
        lemma_grid_indices_len(s, t, t as nat);
    }
    indices
}

/// The indices `0, 1, ..., count - 1`: every vertex once, in draw order.
pub open spec fn strip_indices_spec(count: nat) -> Seq<u16> {
    Seq::new(count, |k: int| k as u16)
}

/// Computes the index order of a triangle strip over `count` vertices: every
/// vertex once, in draw order, so that each vertex closes a triangle with the
/// two before it.
pub fn strip_indices(count: u32) -> (r: Vec<u16>)
    requires
        count <= MAX_INDEXED_VERTICES,
    ensures
        r@ == strip_indices_spec(count as nat),
        indices_in_range(count as int, r@),
{
    let mut indices: Vec<u16> = Vec::new();
    let mut k: u32 = 0;
    while k < count
        invariant
            k <= count,
            count <= MAX_INDEXED_VERTICES,
            indices@ == strip_indices_spec(k as nat),
        decreases count - k,
    {
        indices.push(k as u16);
        assert(indices@ =~= strip_indices_spec((k + 1) as nat));
        k += 1;
    }
    indices
}

/// Place within its face of the vertex that index number `p` of a face's six
/// names: the fan `0 1 2, 2 3 0`.
pub open spec fn fan_corner(p: int) -> int {
    let c = p % 6;
    if c == 0 || c == 5 {
        0
    } else if c == 1 {
        1
    } else if c == 4 {
        3
    } else {
        2
    }
}

/// The triangle list of `vertex_count / 4` faces of four vertices each: two
/// triangles per face, in the order of the fan, over the face's own vertices.
pub open spec fn quad_list_indices(vertex_count: nat) -> Seq<u16> {
    Seq::new(6 * (vertex_count / 4), |p: int| (4 * (p / 6) + fan_corner(p)) as u16)
}

/// Computes the triangle list of faces of four vertices each.
pub fn calculate_indices(vertex_count: u32) -> (r: Vec<u16>)
    requires
        vertex_count % 4 == 0,
        vertex_count <= MAX_INDEXED_VERTICES,
    ensures
        r@ == quad_list_indices(vertex_count as nat),
        indices_in_range(vertex_count as int, r@),
        r@.len() % 3 == 0,
{
    let faces: u32 = vertex_count / 4;
    let mut indices: Vec<u16> = Vec::new();
    let mut f: u32 = 0;
    while f < faces
        invariant
            f <= faces,
            faces == vertex_count / 4,
            vertex_count % 4 == 0,
            vertex_count <= MAX_INDEXED_VERTICES,
            indices@ == Seq::new(6 * (f as nat), |p: int| (4 * (p / 6) + fan_corner(p)) as u16),
            indices_in_range(vertex_count as int, indices@),
        decreases faces - f,
    {
        let base: u32 = 4 * f;
        indices.push(base as u16);
        indices.push((base + 1) as u16);
        indices.push((base + 2) as u16);
        indices.push((base + 2) as u16);
        indices.push((base + 3) as u16);
        indices.push(base as u16);
        assert(indices@ =~= Seq::new(
            6 * ((f + 1) as nat),
            |p: int| (4 * (p / 6) + fan_corner(p)) as u16,
        ));
        f += 1;
    }
    indices
}

/// Copies a table of indices into a list.
pub fn copy_indices(table: &[u16]) -> (r: Vec<u16>)
    ensures
        r@ == table@,
{
    let mut indices: Vec<u16> = Vec::new();
    let mut k: usize = 0;
    while k < table.len()
        invariant
            k <= table@.len(),
            indices@ == table@.take(k as int),
        decreases table@.len() - k,
    {
        indices.push(table[k]);
        assert(indices@ =~= table@.take(k + 1));
        k += 1;
    }
    assert(table@.take(k as int) =~= table@);
    indices
}

/// The cross product of two vectors with whole coordinates.
pub open spec fn cross(a: (int, int, int), b: (int, int, int)) -> (int, int, int) {
    (a.1 * b.2 - a.2 * b.1, a.2 * b.0 - a.0 * b.2, a.0 * b.1 - a.1 * b.0)
}

/// `x * y` for an `x` that is the difference of two coordinates of the
/// cube's corners, written without a product.
pub open spec fn edge_times(x: int, y: int) -> int {
    if x == 0 {
        0
    } else if x == 2 {
        y + y
    } else {
        -(y + y)
    }
}

/// The cross product of an edge of the cube with any vector, written
/// without products.
pub proof fn lemma_cross_of_edge(a: (int, int, int), b: (int, int, int))
    requires
        a.0 == 0 || a.0 == 2 || a.0 == -2,
        a.1 == 0 || a.1 == 2 || a.1 == -2,
        a.2 == 0 || a.2 == 2 || a.2 == -2,
    ensures
        cross(a, b) == (
            edge_times(a.1, b.2) - edge_times(a.2, b.1),
            edge_times(a.2, b.0) - edge_times(a.0, b.2),
            edge_times(a.0, b.1) - edge_times(a.1, b.0),
        ),
{
    assert(a.1 * b.2 == edge_times(a.1, b.2) && a.2 * b.1 == edge_times(a.2, b.1) && a.2 * b.0
        == edge_times(a.2, b.0) && a.0 * b.2 == edge_times(a.0, b.2) && a.0 * b.1 == edge_times(
        a.0,
        b.1,
    ) && a.1 * b.0 == edge_times(a.1, b.0)) by (nonlinear_arith)
        requires
            a.0 == 0 || a.0 == 2 || a.0 == -2,
            a.1 == 0 || a.1 == 2 || a.1 == -2,
            a.2 == 0 || a.2 == 2 || a.2 == -2,
    ;
}

/// -1, 0 or 1 as `v` is negative, zero or positive.
pub open spec fn signum(v: int) -> int {
    if v < 0 {
        -1
    } else if v > 0 {
        1
    } else {
        0
    }
}

/// The vector of length one along `v`, where `v` lies along an axis. A vector
/// that lies along no axis has no such normal with whole coordinates.
pub open spec fn axis_normal(v: (int, int, int)) -> Option<Normal> {
    let along = (if v.0 != 0 {
        1int
    } else {
        0int
    }) + (if v.1 != 0 {
        1int
    } else {
        0int
    }) + (if v.2 != 0 {
        1int
    } else {
        0int
    });
    if along == 1 {
        Some(Normal::Axis { x: signum(v.0) as i8, y: signum(v.1) as i8, z: signum(v.2) as i8 })
    } else {
        None
    }
}

/// The normal of the face through the lattice points `a`, `b` and `c`: the
/// cross product of the edges from `a` to `b` and from `a` to `c`, brought
/// to length one.
pub open spec fn face_normal(a: [i8; 3], b: [i8; 3], c: [i8; 3]) -> Option<Normal> {
    axis_normal(
        cross(
            (b[0] - a[0], b[1] - a[1], b[2] - a[2]),
            (c[0] - a[0], c[1] - a[1], c[2] - a[2]),
        ),
    )
}

fn sign_of(v: i32) -> (r: i8)
    ensures
        r == signum(v as int),
{
    if v < 0 {
        -1
    } else if v > 0 {
        1
    } else {
        0
    }
}

/// Computes the normal of the face through three lattice points, or `None`
/// where the face is not at right angles to an axis.
pub fn calculate_normals(a: &[i8; 3], b: &[i8; 3], c: &[i8; 3]) -> (r: Option<Normal>)
    ensures
        r == face_normal(*a, *b, *c),
{
    let e1x: i32 = b[0] as i32 - a[0] as i32;
    let e1y: i32 = b[1] as i32 - a[1] as i32;
    let e1z: i32 = b[2] as i32 - a[2] as i32;
    let e2x: i32 = c[0] as i32 - a[0] as i32;
    let e2y: i32 = c[1] as i32 - a[1] as i32;
    let e2z: i32 = c[2] as i32 - a[2] as i32;
    assert(-65025 <= e1y * e2z <= 65025 && -65025 <= e1z * e2y <= 65025 && -65025 <= e1z * e2x
        <= 65025 && -65025 <= e1x * e2z <= 65025 && -65025 <= e1x * e2y <= 65025 && -65025 <= e1y
        * e2x <= 65025) by (nonlinear_arith)
        requires
            -255 <= e1x <= 255,
            -255 <= e1y <= 255,
            -255 <= e1z <= 255,
            -255 <= e2x <= 255,
            -255 <= e2y <= 255,
            -255 <= e2z <= 255,
    ;
    let nx: i32 = e1y * e2z - e1z * e2y;
    let ny: i32 = e1z * e2x - e1x * e2z;
    let nz: i32 = e1x * e2y - e1y * e2x;
    let mut along: u8 = 0;
    if nx != 0 {
        along += 1;
    }
    if ny != 0 {
        along += 1;
    }
    if nz != 0 {
        along += 1;
    }
    if along == 1 {
        Some(Normal::Axis { x: sign_of(nx), y: sign_of(ny), z: sign_of(nz) })
    } else {
        None
    }
}

} // verus!
