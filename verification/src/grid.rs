//! Index logic of the cylindrical (r, z) grid with nodes `0..=nr` by `0..=nz`:
//! which nodes a particle's charge is spread over, and which neighbours bound a
//! node's control cell. The weights themselves are computed by the caller.

use vstd::prelude::*;

verus! {

/// Node index of a stencil point in r: outside the grid it is pulled back to
/// the nearest boundary node.
pub open spec fn clamp_node(target: int, n: int) -> int {
    if target < 0 {
        0
    } else if target > n {
        n
    } else {
        target
    }
}

/// Node index of a stencil point in z: outside the grid it is mirrored at the
/// boundary (zero-gradient walls at `0` and `n`).
pub open spec fn reflect_node(target: int, n: int) -> int {
    if target < 0 {
        -target
    } else if target > n {
        2 * n - target
    } else {
        target
    }
}

/// A node of a 3 x 3 spline stencil: grid node `(i, j)` and the slot
/// `(wi, wj)` of the 1D weights (0, 1, 2 for offsets -1, 0, +1) that apply to it.
#[derive(Clone, Copy, Debug)]
pub struct StencilNode {
    pub i: usize,
    pub j: usize,
    pub wi: usize,
    pub wj: usize,
}

/// The stencil node at offsets `(a - 1, b - 1)` from the centre `(ci, cj)`.
pub open spec fn tsc_node(ci: int, cj: int, a: int, b: int, nr: int, nz: int) -> StencilNode {
    StencilNode {
        i: clamp_node(ci + a - 1, nr) as usize,
        j: reflect_node(cj + b - 1, nz) as usize,
        wi: a as usize,
        wj: b as usize,
    }
}

/// Lower-left node of the bilinear (cloud-in-cell) cell for a logical
/// coordinate whose floor is `floor`: the last cell is used beyond the grid.
pub fn cic_cell(floor: usize, n: usize) -> (cell: usize)
    requires
        n >= 1,
    ensures
        cell == (if floor < n - 1 {
            floor
        } else {
            (n - 1) as usize
        }),
        cell + 1 <= n,
{
    if floor < n - 1 {
        floor
    } else {
        n - 1
    }
}

fn make_node(ci: i32, cj: i32, a: i32, b: i32, nr: usize, nz: usize) -> (node: StencilNode)
    requires
        0 <= a < 3,
        0 <= b < 3,
        i32::MIN < ci < i32::MAX,
        i32::MIN < cj < i32::MAX,
        nr <= i32::MAX,
        2 * nz <= i32::MAX,
        -(nz as int) <= cj + b - 1 <= 2 * nz,
    ensures
        node == tsc_node(ci as int, cj as int, a as int, b as int, nr as int, nz as int),
        node.i <= nr,
        node.j <= nz,
{
    let ti: i32 = ci + (a - 1);
    let tj: i32 = cj + (b - 1);
    let nr_i: i32 = nr as i32;
    let nz_i: i32 = nz as i32;
    let i: usize = if ti < 0 {
        0
    } else if ti > nr_i {
        nr
    } else {
        ti as usize
    };
    let j: usize = if tj < 0 {
        (-tj) as usize
    } else if tj > nz_i {
        (2 * nz_i - tj) as usize
    } else {
        tj as usize
    };
    StencilNode { i, j, wi: a as usize, wj: b as usize }
}

/// The nine nodes that a quadratic-spline (triangular-shaped-cloud) stencil
/// centred on node `(ci, cj)` touches, offset in r outermost and in z
/// innermost, each from -1 to +1. Every node lies on the grid.
pub fn tsc_stencil(ci: i32, cj: i32, nr: usize, nz: usize) -> (nodes: Vec<StencilNode>)
    requires
        i32::MIN < ci < i32::MAX,
        nr <= i32::MAX,
        2 * nz <= i32::MAX,
        -(nz as int) + 1 <= cj <= 2 * nz - 1,
    ensures
        nodes@ == seq![
            tsc_node(ci as int, cj as int, 0, 0, nr as int, nz as int),
            tsc_node(ci as int, cj as int, 0, 1, nr as int, nz as int),
            tsc_node(ci as int, cj as int, 0, 2, nr as int, nz as int),
            tsc_node(ci as int, cj as int, 1, 0, nr as int, nz as int),
            tsc_node(ci as int, cj as int, 1, 1, nr as int, nz as int),
            tsc_node(ci as int, cj as int, 1, 2, nr as int, nz as int),
            tsc_node(ci as int, cj as int, 2, 0, nr as int, nz as int),
            tsc_node(ci as int, cj as int, 2, 1, nr as int, nz as int),
            tsc_node(ci as int, cj as int, 2, 2, nr as int, nz as int),
        ],
        forall|k: int| 0 <= k < nodes.len() ==> #[trigger] nodes@[k].i <= nr && nodes@[k].j <= nz,
{
    let mut nodes: Vec<StencilNode> = Vec::new();
    nodes.push(make_node(ci, cj, 0, 0, nr, nz));
    nodes.push(make_node(ci, cj, 0, 1, nr, nz));
    nodes.push(make_node(ci, cj, 0, 2, nr, nz));
    nodes.push(make_node(ci, cj, 1, 0, nr, nz));
    nodes.push(make_node(ci, cj, 1, 1, nr, nz));
    nodes.push(make_node(ci, cj, 1, 2, nr, nz));
    nodes.push(make_node(ci, cj, 2, 0, nr, nz));
    nodes.push(make_node(ci, cj, 2, 1, nr, nz));
    nodes.push(make_node(ci, cj, 2, 2, nr, nz));
    nodes
}

/// Stencil points outside the grid: in r a point below the cathode node lands
/// on node 0 and one beyond the anode node on node `n`, whatever the grid size;
/// in z a point `k` nodes beyond a wall is mirrored to the node `k` nodes
/// inside it; points on the grid are kept.
pub proof fn law_stencil_boundaries(target: int, n: int)
    requires
        n >= 0,
    ensures
        target < 0 ==> clamp_node(target, n) == 0,
        target > n ==> clamp_node(target, n) == n,
        0 <= target <= n ==> clamp_node(target, n) == target,
        0 <= clamp_node(target, n) <= n,
        -n <= target < 0 ==> reflect_node(target, n) == -target,
        n < target <= 2 * n ==> reflect_node(target, n) == 2 * n - target,
        0 <= target <= n ==> reflect_node(target, n) == target,
        -n <= target <= 2 * n ==> 0 <= reflect_node(target, n) <= n,
{
}

/// The stencil node at weight slot `(a, b)` of a stencil centred on
/// `(ci, cj)` is the grid node at offsets `(a - 1, b - 1)`, pulled onto
/// `0..=nr` in r and mirrored into `0..=nz` in z.
pub proof fn law_stencil_node(ci: int, cj: int, a: int, b: int, nr: usize, nz: usize)
    requires
        0 <= a < 3,
        0 <= b < 3,
        -(nz as int) <= cj + b - 1 <= 2 * nz,
    ensures
        tsc_node(ci, cj, a, b, nr as int, nz as int).i as int == (if ci + a - 1 < 0 {
            0
        } else if ci + a - 1 > nr {
            nr as int
        } else {
            ci + a - 1
        }),
        tsc_node(ci, cj, a, b, nr as int, nz as int).j as int == (if cj + b - 1 < 0 {
            1 - b - cj
        } else if cj + b - 1 > nz {
            2 * nz - (cj + b - 1)
        } else {
            cj + b - 1
        }),
        tsc_node(ci, cj, a, b, nr as int, nz as int).wi as int == a,
        tsc_node(ci, cj, a, b, nr as int, nz as int).wj as int == b,
{
}

/// Mirroring at a zero-gradient wall is symmetric: a point `k` nodes beyond
/// either wall lands on the node `k` nodes inside it, and nodes on the grid
/// are left where they are.
pub proof fn law_reflect_symmetric(k: int, n: int)
    requires
        0 <= k <= n,
    ensures
        reflect_node(-k, n) == k,
        reflect_node(n + k, n) == n - k,
        reflect_node(k, n) == k,
        clamp_node(k, n) == k,
{
}

/// The radial neighbours `r_lo < r_hi` whose spacing, halved, gives the
/// radial width of the control cell of a node, and whether the node sits on
/// an axial wall, where the cell has half the axial width.
#[derive(Clone, Copy, Debug)]
pub struct ControlCell {
    pub r_lo: usize,
    pub r_hi: usize,
    pub half_z: bool,
}

/// Control cell of node `(i, j)`: centred differences inside, one-sided at
/// the cathode (`i == 0`) and at the anode (`i == nr`).
pub fn control_cell(i: usize, j: usize, nr: usize, nz: usize) -> (cell: ControlCell)
    requires
        nr >= 1,
        i <= nr,
    ensures
        cell.r_lo == (if i == 0 {
            0
        } else if i == nr {
            nr - 1
        } else {
            i - 1
        }),
        cell.r_hi == (if i == 0 {
            1
        } else if i == nr {
            nr as int
        } else {
            i + 1
        }),
        cell.half_z == (j == 0 || j == nz),
        cell.r_lo < cell.r_hi <= nr,
{
    let (r_lo, r_hi) = if i == 0 {
        (0, 1)
    } else if i == nr {
        (nr - 1, nr)
    } else {
        (i - 1, i + 1)
    };
    ControlCell { r_lo, r_hi, half_z: j == 0 || j == nz }
}

/// Radial neighbours of an interior node `i` (`0 < i < nr`) that carry unknowns
/// of the potential: a neighbour on the cathode (`0`) or on the anode (`nr`)
/// holds a Dirichlet value and is reported as `None`.
pub fn dirichlet_neighbours(i: usize, nr: usize) -> (nb: (Option<usize>, Option<usize>))
    requires
        0 < i < nr,
    ensures
        nb.0 == (if i - 1 == 0 {
            None
        } else {
            Some((i - 1) as usize)
        }),
        nb.1 == (if i + 1 == nr {
            None
        } else {
            Some((i + 1) as usize)
        }),
        nb.0 matches Some(lo) ==> 0 < lo < nr,
        nb.1 matches Some(hi) ==> 0 < hi < nr,
{
    let lo = if i - 1 == 0 {
        None
    } else {
        Some(i - 1)
    };
    let hi = if i + 1 == nr {
        None
    } else {
        Some(i + 1)
    };
    (lo, hi)
}

/// Index range `lo..hi` over which a moving average of `window` samples is
/// taken on `len` samples, or `None` when there are fewer samples than the
/// window (the data are then left unsmoothed). Sample `i` of the range
/// averages samples `i - lo ..= i + lo`, which all exist since `hi + lo == len`.
pub fn smoothing_span(len: usize, window: usize) -> (span: Option<(usize, usize)>)
    ensures
        span is None <==> len < window,
        span matches Some((lo, hi)) ==> {
            &&& lo == window / 2
            &&& hi == len - window / 2
            &&& lo <= hi
            &&& hi + lo == len
        },
{
    if len < window {
        None
    } else {
        let half = window / 2;
        Some((half, len - half))
    }
}

} // verus!
