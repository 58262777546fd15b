use crate::hash::{euclid_rem, lemma_permute_periodic, permute_spec, permute_sum, RING};
use vstd::prelude::*;

verus! {

/// `1` for `true`, `0` for `false`.
pub open spec fn bit(b: bool) -> int {
    if b {
        1
    } else {
        0
    }
}

/// Hash of the corner at offset `(ox, oy)` of the two-dimensional lattice
/// cell `(ix, iy)`: the `y` chain is hashed first and then folded into `x`.
pub open spec fn hash_2d(ix: int, iy: int, ox: int, oy: int) -> int {
    permute_spec(permute_spec(iy + oy) + ix + ox)
}

/// Hash of the corner at offset `(ox, oy, oz)` of the three-dimensional
/// lattice cell `(ix, iy, iz)`: `z`, then `y`, then `x`.
pub open spec fn hash_3d(ix: int, iy: int, iz: int, ox: int, oy: int, oz: int) -> int {
    permute_spec(permute_spec(permute_spec(iz + oz) + iy + oy) + ix + ox)
}

/// Offset of the middle corner of a triangle: `(1, 0)` in the lower
/// triangle, where the local `x` is strictly above the local `y`, else
/// `(0, 1)`.
pub open spec fn middle_corner_2d_spec(x_above_y: bool) -> (int, int) {
    if x_above_y {
        (1, 0)
    } else {
        (0, 1)
    }
}

/// Offset of the second corner of a tetrahedron, from the comparisons
/// `gx = (x >= y)`, `gy = (y >= z)`, `gz = (z >= x)` of the local offset.
pub open spec fn first_offset_3d(gx: bool, gy: bool, gz: bool) -> Seq<int> {
    seq![bit(gx && !gz), bit(gy && !gx), bit(gz && !gy)]
}

/// Offset of the third corner of a tetrahedron, from the same comparisons.
pub open spec fn second_offset_3d(gx: bool, gy: bool, gz: bool) -> Seq<int> {
    seq![bit(gx || !gz), bit(gy || !gx), bit(gz || !gy)]
}

/// Picks the middle corner of the triangle that holds a point; a tie goes
/// to `(0, 1)`.
pub fn middle_corner_2d(x_above_y: bool) -> (r: (i64, i64))
    ensures
        (r.0 as int, r.1 as int) == middle_corner_2d_spec(x_above_y),
{
    if x_above_y {
        (1, 0)
    } else {
        (0, 1)
    }
}

fn lattice_hash_2d(ix: i64, iy: i64, ox: i64, oy: i64) -> (r: i64)
    requires
        0 <= ox <= 1,
        0 <= oy <= 1,
    ensures
        r == hash_2d(ix as int, iy as int, ox as int, oy as int),
        0 <= r < RING,
{
    let h: i64 = permute_sum(oy, iy);
    assert(h + ix + ox == (h + ox) + ix);
    permute_sum(h + ox, ix)
}

/// Hashes the three corners of the triangle of lattice cell `(ix, iy)`:
/// the cell's own corner, the middle corner that `x_above_y` selects, and
/// the far corner `(1, 1)`.
pub fn corner_hashes_2d(ix: i64, iy: i64, x_above_y: bool) -> (r: [i64; 3])
    ensures
        r[0] == hash_2d(ix as int, iy as int, 0, 0),
        r[1] == hash_2d(
            ix as int,
            iy as int,
            middle_corner_2d_spec(x_above_y).0,
            middle_corner_2d_spec(x_above_y).1,
        ),
        r[2] == hash_2d(ix as int, iy as int, 1, 1),
        forall|k: int| 0 <= k < 3 ==> 0 <= #[trigger] r[k] < RING,
{
    let (ox, oy) = middle_corner_2d(x_above_y);
    [lattice_hash_2d(ix, iy, 0, 0), lattice_hash_2d(ix, iy, ox, oy), lattice_hash_2d(ix, iy, 1, 1)]
}

/// Selects the second and third corners of the tetrahedron that holds a
/// point, from the comparisons `gx = (x >= y)`, `gy = (y >= z)` and
/// `gz = (z >= x)` of its offset inside the skewed cell.
pub fn corner_offsets_3d(gx: bool, gy: bool, gz: bool) -> (r: ([i64; 3], [i64; 3]))
    ensures
        forall|k: int| 0 <= k < 3 ==> #[trigger] r.0[k] == first_offset_3d(gx, gy, gz)[k],
        forall|k: int| 0 <= k < 3 ==> #[trigger] r.1[k] == second_offset_3d(gx, gy, gz)[k],
{
    let first = [
        if gx && !gz { 1 } else { 0 },
        if gy && !gx { 1 } else { 0 },
        if gz && !gy { 1 } else { 0 },
    ];
    let second = [
        if gx || !gz { 1 } else { 0 },
        if gy || !gx { 1 } else { 0 },
        if gz || !gy { 1 } else { 0 },
    ];
    (first, second)
}

fn lattice_hash_3d(ix: i64, iy: i64, iz: i64, o: [i64; 3]) -> (r: i64)
    requires
        forall|k: int| 0 <= k < 3 ==> 0 <= #[trigger] o[k] <= 1,
    ensures
        r == hash_3d(ix as int, iy as int, iz as int, o[0] as int, o[1] as int, o[2] as int),
        0 <= r < RING,
{
    let hz: i64 = permute_sum(o[2], iz);
    assert(hz + iy + o[1] == (hz + o[1]) + iy);
    let hy: i64 = permute_sum(hz + o[1], iy);
    assert(hy + ix + o[0] == (hy + o[0]) + ix);
    permute_sum(hy + o[0], ix)
}

/// Hashes the four corners of the tetrahedron of lattice cell
/// `(ix, iy, iz)` that the comparisons `gx`, `gy`, `gz` select (see
/// `corner_offsets_3d`): the cell's corner, the two middle corners, and the
/// far corner `(1, 1, 1)`.
pub fn corner_hashes_3d(ix: i64, iy: i64, iz: i64, gx: bool, gy: bool, gz: bool) -> (r: [i64; 4])
    ensures
        r[0] == hash_3d(ix as int, iy as int, iz as int, 0, 0, 0),
        r[1] == hash_3d(
            ix as int,
            iy as int,
            iz as int,
            first_offset_3d(gx, gy, gz)[0],
            first_offset_3d(gx, gy, gz)[1],
            first_offset_3d(gx, gy, gz)[2],
        ),
        r[2] == hash_3d(
            ix as int,
            iy as int,
            iz as int,
            second_offset_3d(gx, gy, gz)[0],
            second_offset_3d(gx, gy, gz)[1],
            second_offset_3d(gx, gy, gz)[2],
        ),
        r[3] == hash_3d(ix as int, iy as int, iz as int, 1, 1, 1),
        forall|k: int| 0 <= k < 4 ==> 0 <= #[trigger] r[k] < RING,
{
    let (first, second) = corner_offsets_3d(gx, gy, gz);
    [
        lattice_hash_3d(ix, iy, iz, [0, 0, 0]),
        lattice_hash_3d(ix, iy, iz, first),
        lattice_hash_3d(ix, iy, iz, second),
        lattice_hash_3d(ix, iy, iz, [1, 1, 1]),
    ]
}

/// Side of the square of gradient bins: 7 * 7 = 49 gradients in three
/// dimensions.
pub const GRADIENT_SIDE: i64 = 7;

/// Gradient bin of a corner hash: the hash modulo 49, split into a column
/// `j / 7` and a row `j % 7` of the 7 x 7 square that is folded onto an
/// octahedron.
pub open spec fn gradient_bin_spec(p: int) -> (int, int) {
    ((p % 49) / 7, (p % 49) % 7)
}

/// Locates the gradient of a corner hash on the 7 x 7 square.
pub fn gradient_bin_3d(p: i64) -> (r: (i64, i64))
    ensures
        (r.0 as int, r.1 as int) == gradient_bin_spec(p as int),
        0 <= r.0 < GRADIENT_SIDE,
        0 <= r.1 < GRADIENT_SIDE,
{
    let j: i64 = euclid_rem(p, GRADIENT_SIDE * GRADIENT_SIDE);
    (j / GRADIENT_SIDE, j % GRADIENT_SIDE)
}

/// Hashes repeat with period 289 along each lattice axis in two dimensions.
pub proof fn lemma_lattice_periodic_2d(ix: int, iy: int, ox: int, oy: int, a: int, b: int)
    ensures
        hash_2d(ix + 289 * a, iy + 289 * b, ox, oy) == hash_2d(ix, iy, ox, oy),
{
    lemma_permute_periodic(iy + oy, b);
    assert(iy + 289 * b + oy == (iy + oy) + 289 * b);
    let h = permute_spec(iy + oy);
    lemma_permute_periodic(h + ix + ox, a);
    assert(h + (ix + 289 * a) + ox == (h + ix + ox) + 289 * a);
}

/// Hashes repeat with period 289 along each lattice axis in three
/// dimensions.
pub proof fn lemma_lattice_periodic_3d(
    ix: int,
    iy: int,
    iz: int,
    ox: int,
    oy: int,
    oz: int,
    a: int,
    b: int,
    c: int,
)
    ensures
        hash_3d(ix + 289 * a, iy + 289 * b, iz + 289 * c, ox, oy, oz) == hash_3d(
            ix,
            iy,
            iz,
            ox,
            oy,
            oz,
        ),
{
    lemma_permute_periodic(iz + oz, c);
    assert(iz + 289 * c + oz == (iz + oz) + 289 * c);
    let hz = permute_spec(iz + oz);
    lemma_permute_periodic(hz + iy + oy, b);
    assert(hz + (iy + 289 * b) + oy == (hz + iy + oy) + 289 * b);
    let hy = permute_spec(hz + iy + oy);
    lemma_permute_periodic(hy + ix + ox, a);
    assert(hy + (ix + 289 * a) + ox == (hy + ix + ox) + 289 * a);
}

/// Sum of the three components of an offset.
pub open spec fn offset_sum(o: Seq<int>) -> int {
    o[0] + o[1] + o[2]
}

/// For the comparisons of the components `v` of a local offset that are not
/// all equal, the second corner steps along one largest component, the third
/// corner along every component but one smallest, and the second corner lies
/// below the third: the four corners walk from the origin to `(1, 1, 1)` one
/// axis at a time, largest component first.
pub proof fn lemma_corner_offsets_order(v: Seq<int>)
    requires
        v.len() == 3,
        !(v[0] == v[1] && v[1] == v[2]),
    ensures
        ({
            let (gx, gy, gz) = (v[0] >= v[1], v[1] >= v[2], v[2] >= v[0]);
            let i1 = first_offset_3d(gx, gy, gz);
            let i2 = second_offset_3d(gx, gy, gz);
            &&& offset_sum(i1) == 1
            &&& offset_sum(i2) == 2
            &&& forall|k: int| 0 <= k < 3 ==> 0 <= #[trigger] i1[k] <= i2[k] <= 1
            &&& forall|k: int, m: int|
                0 <= k < 3 && 0 <= m < 3 && #[trigger] i1[k] == 1 ==> v[k] >= #[trigger] v[m]
            &&& forall|k: int, m: int|
                0 <= k < 3 && 0 <= m < 3 && #[trigger] i2[k] == 0 ==> v[k] <= #[trigger] v[m]
        }),
{
}

/// Two evaluations on the same lattice cell and comparisons agree corner
/// for corner: every hash is fixed by its arguments alone.
pub proof fn lemma_corner_hashes_deterministic(
    ix: i64,
    iy: i64,
    iz: i64,
    gx: bool,
    gy: bool,
    gz: bool,
    r1: [i64; 4],
    r2: [i64; 4],
)
    requires
        r1[0] == hash_3d(ix as int, iy as int, iz as int, 0, 0, 0),
        r2[0] == hash_3d(ix as int, iy as int, iz as int, 0, 0, 0),
        r1[1] == hash_3d(
            ix as int,
            iy as int,
            iz as int,
            first_offset_3d(gx, gy, gz)[0],
            first_offset_3d(gx, gy, gz)[1],
            first_offset_3d(gx, gy, gz)[2],
        ),
        r2[1] == hash_3d(
            ix as int,
            iy as int,
            iz as int,
            first_offset_3d(gx, gy, gz)[0],
            first_offset_3d(gx, gy, gz)[1],
            first_offset_3d(gx, gy, gz)[2],
        ),
        r1[2] == hash_3d(
            ix as int,
            iy as int,
            iz as int,
            second_offset_3d(gx, gy, gz)[0],
            second_offset_3d(gx, gy, gz)[1],
            second_offset_3d(gx, gy, gz)[2],
        ),
        r2[2] == hash_3d(
            ix as int,
            iy as int,
            iz as int,
            second_offset_3d(gx, gy, gz)[0],
            second_offset_3d(gx, gy, gz)[1],
            second_offset_3d(gx, gy, gz)[2],
        ),
        r1[3] == hash_3d(ix as int, iy as int, iz as int, 1, 1, 1),
        r2[3] == hash_3d(ix as int, iy as int, iz as int, 1, 1, 1),
    ensures
        r1@ == r2@,
{
    assert(r1@ =~= r2@);
}

} // verus!
