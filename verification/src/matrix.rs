//! Square transform matrices of edge length two to four, with the affine
//! constructors, multiplication, transposition, cofactor determinants and
//! inversion the tracing pipeline needs.

use vstd::prelude::*;

use crate::coord::Coord;
use crate::coord::Vec4;
use crate::coord::v4_cross;
use crate::coord::v4_is_point;
use crate::coord::v4_is_vec;
use crate::coord::v4_mag;
use crate::coord::v4_norm;
use crate::coord::v4_sub;
use crate::fx::Fx;
use crate::fx::SCALE;
use crate::fx::fx_add;
use crate::fx::fx_div;
use crate::fx::fx_mul;
use crate::fx::fx_neg;
use crate::fx::fx_sub;

verus! {

/// Mathematical image of a matrix: its cells in fixed-point units, row major.
pub type Grid = Seq<Seq<int>>;

/// A well-formed grid is square with edge length two to four.
pub open spec fn m_wf(m: Grid) -> bool {
    &&& 2 <= m.len() <= 4
    &&& forall|i: int| 0 <= i < m.len() ==> #[trigger] m[i].len() == m.len()
}

/// The image of a vector of rows of fixed-point cells.
pub open spec fn grid_view(data: Seq<Vec<Fx>>) -> Grid {
    data.map_values(|row: Vec<Fx>| row@.map_values(|f: Fx| f@))
}

/// The image of a list of fixed-point values.
pub open spec fn list_view(v: Seq<Fx>) -> Seq<int> {
    v.map_values(|f: Fx| f@)
}

/// The identity grid of a given edge length.
pub open spec fn m_id(n: int) -> Grid {
    Seq::new(n as nat, |i: int| Seq::new(n as nat, |j: int| if i == j { SCALE as int } else { 0 }))
}

/// One cell of a translation grid.
pub open spec fn m_translation_cell(i: int, j: int, x: int, y: int, z: int) -> int {
    if i == j {
        SCALE as int
    } else if i == 0 && j == 3 {
        x
    } else if i == 1 && j == 3 {
        y
    } else if i == 2 && j == 3 {
        z
    } else {
        0
    }
}

/// The translation grid: the identity with the offset in the last column.
pub open spec fn m_translation(x: int, y: int, z: int) -> Grid {
    Seq::new(4, |i: int| Seq::new(4, |j: int| m_translation_cell(i, j, x, y, z)))
}

/// One cell of a scaling grid.
pub open spec fn m_scaling_cell(i: int, j: int, x: int, y: int, z: int) -> int {
    if i != j {
        0
    } else if i == 0 {
        x
    } else if i == 1 {
        y
    } else if i == 2 {
        z
    } else {
        SCALE as int
    }
}

/// The scaling grid: the factors on the diagonal.
pub open spec fn m_scaling(x: int, y: int, z: int) -> Grid {
    Seq::new(4, |i: int| Seq::new(4, |j: int| m_scaling_cell(i, j, x, y, z)))
}

/// One cell of a shearing grid.
pub open spec fn m_shearing_cell(
    i: int,
    j: int,
    xy: int,
    xz: int,
    yx: int,
    yz: int,
    zx: int,
    zy: int,
) -> int {
    if i == j {
        SCALE as int
    } else if i == 0 && j == 1 {
        xy
    } else if i == 0 && j == 2 {
        xz
    } else if i == 1 && j == 0 {
        yx
    } else if i == 1 && j == 2 {
        yz
    } else if i == 2 && j == 0 {
        zx
    } else if i == 2 && j == 1 {
        zy
    } else {
        0
    }
}

/// The shearing grid: the identity with the six slopes filled in.
pub open spec fn m_shearing(xy: int, xz: int, yx: int, yz: int, zx: int, zy: int) -> Grid {
    Seq::new(4, |i: int| Seq::new(4, |j: int| m_shearing_cell(i, j, xy, xz, yx, yz, zx, zy)))
}

/// The grid holding a vector's components on the upper diagonal.
pub open spec fn m_from_vec_cell(i: int, j: int, v: Vec4) -> int {
    if i != j {
        0
    } else if i == 0 {
        v.x
    } else if i == 1 {
        v.y
    } else if i == 2 {
        v.z
    } else {
        SCALE as int
    }
}

/// The grid holding a vector's components on the diagonal.
pub open spec fn m_from_vec(v: Vec4) -> Grid {
    Seq::new(4, |i: int| Seq::new(4, |j: int| m_from_vec_cell(i, j, v)))
}

/// One cell of a rotation grid about the first axis, from a cosine and sine.
pub open spec fn m_rotation_x_cell(i: int, j: int, c: int, s: int) -> int {
    if i == 0 && j == 0 {
        SCALE as int
    } else if i == 3 && j == 3 {
        SCALE as int
    } else if i == 1 && j == 1 {
        c
    } else if i == 2 && j == 2 {
        c
    } else if i == 1 && j == 2 {
        fx_neg(s)
    } else if i == 2 && j == 1 {
        s
    } else {
        0
    }
}

/// The rotation grid about the first axis.
pub open spec fn m_rotation_x(c: int, s: int) -> Grid {
    Seq::new(4, |i: int| Seq::new(4, |j: int| m_rotation_x_cell(i, j, c, s)))
}

/// One cell of a rotation grid about the second axis.
pub open spec fn m_rotation_y_cell(i: int, j: int, c: int, s: int) -> int {
    if i == 1 && j == 1 {
        SCALE as int
    } else if i == 3 && j == 3 {
        SCALE as int
    } else if i == 0 && j == 0 {
        c
    } else if i == 2 && j == 2 {
        c
    } else if i == 0 && j == 2 {
        s
    } else if i == 2 && j == 0 {
        fx_neg(s)
    } else {
        0
    }
}

/// The rotation grid about the second axis.
pub open spec fn m_rotation_y(c: int, s: int) -> Grid {
    Seq::new(4, |i: int| Seq::new(4, |j: int| m_rotation_y_cell(i, j, c, s)))
}

/// One cell of a rotation grid about the third axis.
pub open spec fn m_rotation_z_cell(i: int, j: int, c: int, s: int) -> int {
    if i == 2 && j == 2 {
        SCALE as int
    } else if i == 3 && j == 3 {
        SCALE as int
    } else if i == 0 && j == 0 {
        c
    } else if i == 1 && j == 1 {
        c
    } else if i == 0 && j == 1 {
        fx_neg(s)
    } else if i == 1 && j == 0 {
        s
    } else {
        0
    }
}

/// The rotation grid about the third axis.
pub open spec fn m_rotation_z(c: int, s: int) -> Grid {
    Seq::new(4, |i: int| Seq::new(4, |j: int| m_rotation_z_cell(i, j, c, s)))
}

/// The first cells of the product of row `i` of `a` with column `j` of `b`,
/// summed left to right.
pub open spec fn m_mul_cell_k(a: Grid, b: Grid, i: int, j: int, k: nat) -> int
    decreases k,
{
    if k == 0 {
        0
    } else {
        fx_add(m_mul_cell_k(a, b, i, j, (k - 1) as nat), fx_mul(a[i][k - 1], b[k - 1][j]))
    }
}

/// The matrix product.
pub open spec fn m_mul(a: Grid, b: Grid) -> Grid {
    Seq::new(a.len(), |i: int| Seq::new(a.len(), |j: int| m_mul_cell_k(a, b, i, j, a.len())))
}

/// A four-by-four grid applied to a homogeneous tuple: one row's sum.
pub open spec fn m_apply_row(m: Grid, v: Vec4, i: int) -> int {
    fx_add(
        fx_add(fx_add(fx_mul(m[i][0], v.x), fx_mul(m[i][1], v.y)), fx_mul(m[i][2], v.z)),
        fx_mul(m[i][3], v.w),
    )
}

/// A four-by-four grid applied to a homogeneous tuple.
pub open spec fn m_apply(m: Grid, v: Vec4) -> Vec4 {
    Vec4 {
        x: m_apply_row(m, v, 0),
        y: m_apply_row(m, v, 1),
        z: m_apply_row(m, v, 2),
        w: m_apply_row(m, v, 3),
    }
}

/// The first cells of the product of row `i` of `m` with a plain list.
pub open spec fn m_apply_list_k(m: Grid, v: Seq<int>, i: int, k: nat) -> int
    decreases k,
{
    if k == 0 {
        0
    } else {
        fx_add(m_apply_list_k(m, v, i, (k - 1) as nat), fx_mul(m[i][k - 1], v[k - 1]))
    }
}

/// A grid applied to a plain list of the same length.
pub open spec fn m_apply_list(m: Grid, v: Seq<int>) -> Seq<int> {
    Seq::new(m.len(), |i: int| m_apply_list_k(m, v, i, m.len()))
}

/// The transposed grid.
pub open spec fn m_transpose(m: Grid) -> Grid {
    Seq::new(m.len(), |i: int| Seq::new(m.len(), |j: int| m[j][i]))
}

/// The index in the parent grid of index `i` once row or column `skip` is gone.
pub open spec fn m_skip(i: int, skip: int) -> int {
    if i < skip { i } else { i + 1 }
}

/// The grid with one row and one column removed.
pub open spec fn m_sub(m: Grid, row: int, col: int) -> Grid {
    Seq::new(
        (m.len() - 1) as nat,
        |i: int| Seq::new((m.len() - 1) as nat, |j: int| m[m_skip(i, row)][m_skip(j, col)]),
    )
}

/// Determinant of the top-left two-by-two cells.
pub open spec fn m_det2(m: Grid) -> int {
    fx_sub(fx_mul(m[0][0], m[1][1]), fx_mul(m[1][0], m[0][1]))
}

/// Determinant: the two-by-two base case, or cofactor expansion along the
/// first row.
pub open spec fn m_det(m: Grid) -> int
    decreases m.len(), 3int, 0int,
{
    if m.len() <= 2 {
        m_det2(m)
    } else {
        m_det_row(m, m.len())
    }
}

/// The first `k` summands of the first-row cofactor expansion.
pub open spec fn m_det_row(m: Grid, k: nat) -> int
    decreases m.len(), 2int, k,
{
    if k == 0 || m.len() <= 2 {
        0
    } else {
        fx_add(m_det_row(m, (k - 1) as nat), fx_mul(m[0][k - 1], m_cof(m, 0, k - 1)))
    }
}

/// The signed minor.
pub open spec fn m_cof(m: Grid, row: int, col: int) -> int
    decreases m.len(), 1int, 0int,
{
    if m.len() <= 2 {
        0
    } else if (row + col) % 2 == 1 {
        fx_neg(m_det(m_sub(m, row, col)))
    } else {
        m_det(m_sub(m, row, col))
    }
}

/// The minor: the determinant of the grid with `row` and `col` removed.
pub open spec fn m_minor(m: Grid, row: int, col: int) -> int {
    m_det(m_sub(m, row, col))
}

/// The inverse grid: the adjugate with every cell divided by the determinant.
pub open spec fn m_inv(m: Grid) -> Grid {
    Seq::new(m.len(), |i: int| Seq::new(m.len(), |j: int| fx_div(m_cof(m, j, i), m_det(m))))
}

/// Every cell of the grid fits the machine word that carries it.
pub open spec fn m_in_range(m: Grid) -> bool {
    forall|i: int, j: int|
        0 <= i < m.len() && 0 <= j < m[i].len() ==> i64::MIN <= #[trigger] m[i][j] <= i64::MAX
}

/// The camera orientation grid from the three basis vectors.
pub open spec fn m_orientation(left: Vec4, true_up: Vec4, forward: Vec4) -> Grid {
    seq![
        seq![left.x, left.y, left.z, 0int],
        seq![true_up.x, true_up.y, true_up.z, 0int],
        seq![fx_neg(forward.x), fx_neg(forward.y), fx_neg(forward.z), 0int],
        seq![0int, 0int, 0int, SCALE as int],
    ]
}

/// The view transform: the orientation from the camera basis composed with
/// a translation that moves the eye to the origin.
pub open spec fn m_view(pos: Vec4, towards: Vec4, up: Vec4) -> Grid {
    let forward = v4_norm(v4_sub(towards, pos));
    let up_n = v4_norm(up);
    let left = v4_cross(forward, up_n);
    let true_up = v4_cross(left, forward);
    m_mul(
        m_orientation(left, true_up, forward),
        m_translation(fx_neg(pos.x), fx_neg(pos.y), fx_neg(pos.z)),
    )
}

proof fn lemma_mul_cell_id_right(m: Grid, i: int, j: int, k: nat)
    requires
        m_wf(m),
        m_in_range(m),
        0 <= i < m.len(),
        0 <= j < m.len(),
        k <= m.len(),
    ensures
        m_mul_cell_k(m, m_id(m.len() as int), i, j, k) == if j < k { m[i][j] } else { 0 },
    decreases k,
{
    if k > 0 {
        lemma_mul_cell_id_right(m, i, j, (k - 1) as nat);
        if k - 1 == j {
            crate::fx::lemma_fx_mul_one(m[i][j]);
        } else {
            crate::fx::lemma_fx_mul_zero(m[i][k - 1]);
        }
    }
}

proof fn lemma_mul_cell_id_left(m: Grid, i: int, j: int, k: nat)
    requires
        m_wf(m),
        m_in_range(m),
        0 <= i < m.len(),
        0 <= j < m.len(),
        k <= m.len(),
    ensures
        m_mul_cell_k(m_id(m.len() as int), m, i, j, k) == if i < k { m[i][j] } else { 0 },
    decreases k,
{
    if k > 0 {
        lemma_mul_cell_id_left(m, i, j, (k - 1) as nat);
        if k - 1 == i {
            crate::fx::lemma_fx_mul_one(m[i][j]);
        } else {
            crate::fx::lemma_fx_mul_zero(m[k - 1][j]);
        }
    }
}

/// Multiplying any well-formed matrix by the identity of its size, on
/// either side, leaves it unchanged, cell for cell.
pub proof fn lemma_identity_is_neutral(m: Grid)
    requires
        m_wf(m),
        m_in_range(m),
    ensures
        m_mul(m, m_id(m.len() as int)) == m,
        m_mul(m_id(m.len() as int), m) == m,
{
    let n = m.len() as int;
    let right = m_mul(m, m_id(n));
    let left = m_mul(m_id(n), m);
    assert forall|i: int| 0 <= i < m.len() implies #[trigger] right[i] == m[i] by {
        assert forall|j: int| 0 <= j < m.len() implies #[trigger] right[i][j] == m[i][j] by {
            assert(right[i][j] == m_mul_cell_k(m, m_id(n), i, j, m.len()));
            lemma_mul_cell_id_right(m, i, j, m.len());
        }
        assert(right[i] =~= m[i]);
    }
    assert forall|i: int| 0 <= i < m.len() implies #[trigger] left[i] == m[i] by {
        assert forall|j: int| 0 <= j < m.len() implies #[trigger] left[i][j] == m[i][j] by {
            assert(left[i][j] == m_mul_cell_k(m_id(n), m, i, j, m.len()));
            lemma_mul_cell_id_left(m, i, j, m.len());
        }
        assert(left[i] =~= m[i]);
    }
    assert(right =~= m);
    assert(left =~= m);
}

/// Multiplying an actual matrix by the identity of its size, on either
/// side, leaves it unchanged.
pub proof fn lemma_matrix_identity_is_neutral(m: &Matrix)
    requires
        m_wf(m@),
    ensures
        m_mul(m@, m_id(m@.len() as int)) == m@,
        m_mul(m_id(m@.len() as int), m@) == m@,
{
    m.lemma_in_range();
    lemma_identity_is_neutral(m@);
}

proof fn lemma_scalar_facts()
    ensures
        forall|a: int| #[trigger] fx_mul(0, a) == 0,
        forall|a: int| #[trigger] fx_mul(a, 0) == 0,
        forall|a: int|
            i64::MIN <= a <= i64::MAX ==> #[trigger] fx_mul(a, SCALE as int) == a,
        forall|a: int|
            i64::MIN <= a <= i64::MAX ==> #[trigger] fx_mul(SCALE as int, a) == a,
        forall|a: int|
            i64::MIN <= a <= i64::MAX ==> #[trigger] fx_div(a, SCALE as int) == a,
{
    assert forall|a: int| #[trigger] fx_mul(0, a) == 0 by {
        crate::fx::lemma_fx_mul_zero(a);
    }
    assert forall|a: int| #[trigger] fx_mul(a, 0) == 0 by {
        crate::fx::lemma_fx_mul_zero(a);
    }
    assert forall|a: int|
        i64::MIN <= a <= i64::MAX implies #[trigger] fx_mul(a, SCALE as int) == a by {
        crate::fx::lemma_fx_mul_one(a);
    }
    assert forall|a: int|
        i64::MIN <= a <= i64::MAX implies #[trigger] fx_mul(SCALE as int, a) == a by {
        crate::fx::lemma_fx_mul_one(a);
    }
    assert forall|a: int|
        i64::MIN <= a <= i64::MAX implies #[trigger] fx_div(a, SCALE as int) == a by {
        crate::fx::lemma_fx_div_one(a);
    }
}

proof fn lemma_translation_apply(x: int, y: int, z: int, p: Vec4)
    requires
        i64::MIN <= x <= i64::MAX,
        i64::MIN <= y <= i64::MAX,
        i64::MIN <= z <= i64::MAX,
        i64::MIN <= p.x <= i64::MAX,
        i64::MIN <= p.y <= i64::MAX,
        i64::MIN <= p.z <= i64::MAX,
        v4_is_point(p),
    ensures
        m_apply(m_translation(x, y, z), p) == (Vec4 {
            x: crate::fx::clip(p.x + x),
            y: crate::fx::clip(p.y + y),
            z: crate::fx::clip(p.z + z),
            w: SCALE as int,
        }),
{
    lemma_scalar_facts();
}

/// For a translation and any representable point whose shifted
/// coordinates stay representable, applying the transform and then its
/// inverse brings the point back exactly.  A general invertible transform
/// brings it back only to within rounding, which no clause here could
/// state more tightly.
#[verifier::rlimit(100)]
pub proof fn lemma_translation_round_trip(x: int, y: int, z: int, p: Vec4)
    requires
        i64::MIN < x <= i64::MAX,
        i64::MIN < y <= i64::MAX,
        i64::MIN < z <= i64::MAX,
        i64::MIN <= p.x <= i64::MAX,
        i64::MIN <= p.y <= i64::MAX,
        i64::MIN <= p.z <= i64::MAX,
        i64::MIN <= p.x + x <= i64::MAX,
        i64::MIN <= p.y + y <= i64::MAX,
        i64::MIN <= p.z + z <= i64::MAX,
        v4_is_point(p),
    ensures
        m_det(m_translation(x, y, z)) != 0,
        m_apply(m_inv(m_translation(x, y, z)), m_apply(m_translation(x, y, z), p)) == p,
{
    lemma_scalar_facts();
    reveal_with_fuel(m_det, 6);
    reveal_with_fuel(m_det_row, 12);
    reveal_with_fuel(m_cof, 6);
    let t = m_translation(x, y, z);
    assert(m_det(m_sub(t, 0, 0)) == SCALE as int);
    assert(m_det(m_sub(t, 0, 1)) == 0);
    assert(m_det(m_sub(t, 0, 2)) == 0);
    assert(m_det(m_sub(t, 0, 3)) == 0);
    assert(m_det(t) == SCALE as int);
    assert(m_cof(t, 0, 0) == SCALE as int);
    assert(m_cof(t, 0, 1) == 0);
    assert(m_cof(t, 0, 2) == 0);
    assert(m_cof(t, 0, 3) == 0);
    assert(m_cof(t, 1, 0) == 0);
    assert(m_cof(t, 1, 1) == SCALE as int);
    assert(m_cof(t, 1, 2) == 0);
    assert(m_cof(t, 1, 3) == 0);
    assert(m_cof(t, 2, 0) == 0);
    assert(m_cof(t, 2, 1) == 0);
    assert(m_cof(t, 2, 2) == SCALE as int);
    assert(m_cof(t, 2, 3) == 0);
    assert(m_cof(t, 3, 0) == -x);
    assert(m_cof(t, 3, 1) == -y);
    assert(m_cof(t, 3, 2) == -z);
    assert(m_cof(t, 3, 3) == SCALE as int);
    let back = m_translation(-x, -y, -z);
    assert forall|i: int, j: int|
        0 <= i < 4 && 0 <= j < 4 implies #[trigger] m_inv(t)[i][j] == back[i][j] by {
        assert(m_inv(t)[i][j] == fx_div(m_cof(t, j, i), m_det(t)));
    }
    assert(m_inv(t) =~~= back);
    lemma_translation_apply(x, y, z, p);
    let q = m_apply(t, p);
    lemma_translation_apply(-x, -y, -z, q);
    assert(q.x == p.x + x && q.y == p.y + y && q.z == p.z + z);
    assert(m_apply(m_translation(-x, -y, -z), q) == p);
}

/// A square matrix of fixed-point cells, edge length two to four.
#[derive(Debug, PartialEq)]
pub struct Matrix {
    data: Vec<Vec<Fx>>,
}

impl View for Matrix {
    type V = Grid;

    closed spec fn view(&self) -> Grid {
        grid_view(self.data@)
    }
}

/// Four cells gathered into a row.
fn row4(a: Fx, b: Fx, c: Fx, d: Fx) -> (r: Vec<Fx>)
    ensures
        r@.len() == 4,
        r@[0] == a,
        r@[1] == b,
        r@[2] == c,
        r@[3] == d,
{
    let mut v: Vec<Fx> = Vec::new();
    v.push(a);
    v.push(b);
    v.push(c);
    v.push(d);
    v
}

/// Four rows gathered into a matrix body.
fn grid4(r0: Vec<Fx>, r1: Vec<Fx>, r2: Vec<Fx>, r3: Vec<Fx>) -> (r: Vec<Vec<Fx>>)
    ensures
        r@.len() == 4,
        r@[0] == r0,
        r@[1] == r1,
        r@[2] == r2,
        r@[3] == r3,
{
    let mut v: Vec<Vec<Fx>> = Vec::new();
    v.push(r0);
    v.push(r1);
    v.push(r2);
    v.push(r3);
    v
}

impl Clone for Matrix {
    /// The clone carries the same cells.
    fn clone(&self) -> (r: Self)
        ensures
            r@ == self@,
    {
        let mut rows: Vec<Vec<Fx>> = Vec::new();
        let mut i: usize = 0;
        while i < self.data.len()
            invariant
                i <= self.data.len(),
                rows@.len() == i as int,
                forall|ii: int| 0 <= ii < i as int ==> #[trigger] rows@[ii]@ == self.data@[ii]@,
            decreases self.data.len() - i,
        {
            let mut row: Vec<Fx> = Vec::new();
            let mut j: usize = 0;
            while j < self.data[i].len()
                invariant
                    i < self.data.len(),
                    j <= self.data@[i as int]@.len(),
                    row@ == self.data@[i as int]@.take(j as int),
                decreases self.data@[i as int]@.len() - j,
            {
                row.push(self.data[i][j]);
                proof {
                    assert(row@ =~= self.data@[i as int]@.take(j + 1));
                }
                j = j + 1;
            }
            proof {
                assert(row@ =~= self.data@[i as int]@);
            }
            rows.push(row);
            i = i + 1;
        }
        proof {
            assert(grid_view(rows@) =~~= grid_view(self.data@));
        }
        Matrix { data: rows }
    }
}

impl Matrix {
    /// Every cell of an actual matrix fits its machine word.
    pub proof fn lemma_in_range(&self)
        ensures
            m_in_range(self@),
    {
        broadcast use crate::fx::lemma_fx_in_range;

        assert forall|i: int, j: int|
            0 <= i < self@.len() && 0 <= j < self@[i].len() implies i64::MIN
            <= #[trigger] self@[i][j] <= i64::MAX by {
            assert(self@[i] == self.data@[i]@.map_values(|f: Fx| f@));
            assert(self@[i][j] == self.data@[i]@[j]@);
        }
    }

    /// A matrix from a square vector of rows, edge length two to four.
    pub fn new(data: Vec<Vec<Fx>>) -> (r: Self)
        requires
            2 <= data@.len() <= 4,
            forall|i: int| 0 <= i < data@.len() ==> #[trigger] data@[i]@.len() == data@.len(),
        ensures
            r@ == grid_view(data@),
            m_wf(r@),
    {
        Matrix { data }
    }

    /// The rows of the matrix, copied out.
    pub fn get_data(&self) -> (r: Vec<Vec<Fx>>)
        ensures
            grid_view(r@) == self@,
    {
        let c: Matrix = self.clone();
        c.data
    }

    /// The edge length.
    pub fn size(&self) -> (r: usize)
        ensures
            r as int == self@.len(),
    {
        self.data.len()
    }

    /// One cell.
    pub fn at(&self, i: usize, j: usize) -> (r: Fx)
        requires
            m_wf(self@),
            i < self@.len(),
            j < self@.len(),
        ensures
            r@ == self@[i as int][j as int],
    {
        proof {
            assert(self@[i as int] == self.data@[i as int]@.map_values(|f: Fx| f@));
            assert(self.data@[i as int]@.len() == self@[i as int].len());
        }
        self.data[i][j]
    }

    /// Whether two matrices hold exactly the same cells.
    pub fn eq_cells(&self, other: &Matrix) -> (r: bool)
        requires
            m_wf(self@),
            m_wf(other@),
        ensures
            r == (self@ == other@),
    {
        let n: usize = self.data.len();
        if n != other.data.len() {
            return false;
        }
        let mut i: usize = 0;
        while i < n
            invariant
                i <= n,
                n == self@.len(),
                n == other@.len(),
                m_wf(self@),
                m_wf(other@),
                forall|ii: int, jj: int|
                    0 <= ii < i as int && 0 <= jj < n as int ==> #[trigger] self@[ii][jj]
                        == other@[ii][jj],
            decreases n - i,
        {
            let mut j: usize = 0;
            while j < n
                invariant
                    i < n,
                    j <= n,
                    n == self@.len(),
                    n == other@.len(),
                    m_wf(self@),
                    m_wf(other@),
                    forall|jj: int|
                        0 <= jj < j as int ==> #[trigger] self@[i as int][jj] == other@[i as int][jj],
                decreases n - j,
            {
                if self.at(i, j).to_units() != other.at(i, j).to_units() {
                    return false;
                }
                j = j + 1;
            }
            i = i + 1;
        }
        proof {
            assert forall|ii: int| 0 <= ii < n as int implies #[trigger] self@[ii] == other@[ii] by {
                assert(self@[ii] =~= other@[ii]);
            }
            assert(self@ =~= other@);
        }
        true
    }

    /// The identity matrix of a given edge length.
    pub fn identity(size: usize) -> (r: Self)
        requires
            2 <= size <= 4,
        ensures
            r@ == m_id(size as int),
            m_wf(r@),
    {
        let mut rows: Vec<Vec<Fx>> = Vec::new();
        let mut i: usize = 0;
        while i < size
            invariant
                i <= size,
                size <= 4,
                rows@.len() == i as int,
                forall|ii: int|
                    0 <= ii < i as int ==> (#[trigger] rows@[ii])@.map_values(|f: Fx| f@) =~= m_id(
                        size as int,
                    )[ii],
            decreases size - i,
        {
            let mut row: Vec<Fx> = Vec::new();
            let mut j: usize = 0;
            while j < size
                invariant
                    i < size,
                    j <= size,
                    row@.len() == j as int,
                    forall|jj: int|
                        0 <= jj < j as int ==> #[trigger] row@[jj]@ == m_id(size as int)[i as int][jj],
                decreases size - j,
            {
                if i == j {
                    row.push(Fx::one());
                } else {
                    row.push(Fx::zero());
                }
                j = j + 1;
            }
            rows.push(row);
            i = i + 1;
        }
        proof {
            assert(grid_view(rows@) =~~= m_id(size as int));
        }
        Matrix { data: rows }
    }

    /// The translation matrix moving points by the given offsets.
    pub fn translation(x: Fx, y: Fx, z: Fx) -> (r: Self)
        ensures
            r@ == m_translation(x@, y@, z@),
            m_wf(r@),
    {
        let one: Fx = Fx::one();
        let nil: Fx = Fx::zero();
        let data: Vec<Vec<Fx>> = grid4(
            row4(one, nil, nil, x),
            row4(nil, one, nil, y),
            row4(nil, nil, one, z),
            row4(nil, nil, nil, one),
        );
        proof {
            assert(grid_view(data@) =~~= m_translation(x@, y@, z@));
        }
        Matrix { data }
    }

    /// The translation matrix read off a tuple's spatial components.
    pub fn translation_from_coord(vec: &Coord) -> (r: Self)
        ensures
            r@ == m_translation(vec@.x, vec@.y, vec@.z),
            m_wf(r@),
    {
        Self::translation(vec.get_x(), vec.get_y(), vec.get_z())
    }

    /// The translation matrix that places the origin at a point.
    pub fn from_point(coord: &Coord) -> (r: Self)
        ensures
            r@ == m_translation(coord@.x, coord@.y, coord@.z),
            m_wf(r@),
    {
        Self::translation_from_coord(coord)
    }

    /// The scaling matrix with the given diagonal factors.
    pub fn scaling(x: Fx, y: Fx, z: Fx) -> (r: Self)
        ensures
            r@ == m_scaling(x@, y@, z@),
            m_wf(r@),
    {
        let one: Fx = Fx::one();
        let nil: Fx = Fx::zero();
        let data: Vec<Vec<Fx>> = grid4(
            row4(x, nil, nil, nil),
            row4(nil, y, nil, nil),
            row4(nil, nil, z, nil),
            row4(nil, nil, nil, one),
        );
        proof {
            assert(grid_view(data@) =~~= m_scaling(x@, y@, z@));
        }
        Matrix { data }
    }

    /// The scaling matrix read off a tuple's spatial components.
    pub fn scaling_from_coord(vec: Coord) -> (r: Self)
        ensures
            r@ == m_scaling(vec@.x, vec@.y, vec@.z),
            m_wf(r@),
    {
        Self::scaling(vec.get_x(), vec.get_y(), vec.get_z())
    }

    /// The matrix holding a vector's components on the diagonal.
    pub fn from_vec(vec: &Coord) -> (r: Self)
        ensures
            r@ == m_from_vec(vec@),
            m_wf(r@),
    {
        let one: Fx = Fx::one();
        let nil: Fx = Fx::zero();
        let data: Vec<Vec<Fx>> = grid4(
            row4(vec.get_x(), nil, nil, nil),
            row4(nil, vec.get_y(), nil, nil),
            row4(nil, nil, vec.get_z(), nil),
            row4(nil, nil, nil, one),
        );
        proof {
            assert(grid_view(data@) =~~= m_from_vec(vec@));
        }
        Matrix { data }
    }

    /// The rotation matrix about the first axis, from an angle in radians.
    pub fn rotate_x(radians: Fx) -> (r: Self)
        ensures
            r@ == m_rotation_x(
                crate::fx::cos_units(radians@),
                crate::fx::sin_units(radians@),
            ),
            m_wf(r@),
    {
        let c: Fx = radians.cos();
        let s: Fx = radians.sin();
        let one: Fx = Fx::one();
        let nil: Fx = Fx::zero();
        let data: Vec<Vec<Fx>> = grid4(
            row4(one, nil, nil, nil),
            row4(nil, c, s.neg(), nil),
            row4(nil, s, c, nil),
            row4(nil, nil, nil, one),
        );
        proof {
            assert(grid_view(data@) =~~= m_rotation_x(c@, s@));
        }
        Matrix { data }
    }

    /// The rotation matrix about the second axis, from an angle in radians.
    pub fn rotate_y(radians: Fx) -> (r: Self)
        ensures
            r@ == m_rotation_y(
                crate::fx::cos_units(radians@),
                crate::fx::sin_units(radians@),
            ),
            m_wf(r@),
    {
        let c: Fx = radians.cos();
        let s: Fx = radians.sin();
        let one: Fx = Fx::one();
        let nil: Fx = Fx::zero();
        let data: Vec<Vec<Fx>> = grid4(
            row4(c, nil, s, nil),
            row4(nil, one, nil, nil),
            row4(s.neg(), nil, c, nil),
            row4(nil, nil, nil, one),
        );
        proof {
            assert(grid_view(data@) =~~= m_rotation_y(c@, s@));
        }
        Matrix { data }
    }

    /// The rotation matrix about the third axis, from an angle in radians.
    pub fn rotate_z(radians: Fx) -> (r: Self)
        ensures
            r@ == m_rotation_z(
                crate::fx::cos_units(radians@),
                crate::fx::sin_units(radians@),
            ),
            m_wf(r@),
    {
        let c: Fx = radians.cos();
        let s: Fx = radians.sin();
        let one: Fx = Fx::one();
        let nil: Fx = Fx::zero();
        let data: Vec<Vec<Fx>> = grid4(
            row4(c, s.neg(), nil, nil),
            row4(s, c, nil, nil),
            row4(nil, nil, one, nil),
            row4(nil, nil, nil, one),
        );
        proof {
            assert(grid_view(data@) =~~= m_rotation_z(c@, s@));
        }
        Matrix { data }
    }

    /// The shearing matrix with the six slopes filled in.
    pub fn shearing(xy: Fx, xz: Fx, yx: Fx, yz: Fx, zx: Fx, zy: Fx) -> (r: Self)
        ensures
            r@ == m_shearing(xy@, xz@, yx@, yz@, zx@, zy@),
            m_wf(r@),
    {
        let one: Fx = Fx::one();
        let nil: Fx = Fx::zero();
        let data: Vec<Vec<Fx>> = grid4(
            row4(one, xy, xz, nil),
            row4(yx, one, yz, nil),
            row4(zx, zy, one, nil),
            row4(nil, nil, nil, one),
        );
        proof {
            assert(grid_view(data@) =~~= m_shearing(xy@, xz@, yx@, yz@, zx@, zy@));
        }
        Matrix { data }
    }

    /// The diagonal read back as a direction vector.
    pub fn to_vec(&self) -> (r: Coord)
        requires
            m_wf(self@),
            self@.len() >= 3,
        ensures
            r@ == (Vec4 { x: self@[0][0], y: self@[1][1], z: self@[2][2], w: 0 }),
    {
        Coord::vec(self.at(0, 0), self.at(1, 1), self.at(2, 2))
    }

    /// The last column scaled by the diagonal, read back as a point.
    pub fn to_point(&self) -> (r: Coord)
        requires
            m_wf(self@),
            self@.len() == 4,
        ensures
            r@ == (Vec4 {
                x: fx_mul(self@[0][3], self@[0][0]),
                y: fx_mul(self@[1][3], self@[1][1]),
                z: fx_mul(self@[2][3], self@[2][2]),
                w: SCALE as int,
            }),
    {
        Coord::point(
            self.at(0, 3).mul(self.at(0, 0)),
            self.at(1, 3).mul(self.at(1, 1)),
            self.at(2, 3).mul(self.at(2, 2)),
        )
    }

    /// The transposed matrix.
    pub fn transpose(&self) -> (r: Self)
        requires
            m_wf(self@),
        ensures
            r@ == m_transpose(self@),
            m_wf(r@),
    {
        let n: usize = self.data.len();
        let mut rows: Vec<Vec<Fx>> = Vec::new();
        let mut i: usize = 0;
        while i < n
            invariant
                i <= n,
                n == self@.len(),
                m_wf(self@),
                rows@.len() == i as int,
                forall|ii: int|
                    0 <= ii < i as int ==> (#[trigger] rows@[ii])@.map_values(|f: Fx| f@)
                        =~= m_transpose(self@)[ii],
            decreases n - i,
        {
            let mut row: Vec<Fx> = Vec::new();
            let mut j: usize = 0;
            while j < n
                invariant
                    i < n,
                    j <= n,
                    n == self@.len(),
                    m_wf(self@),
                    row@.len() == j as int,
                    forall|jj: int|
                        0 <= jj < j as int ==> #[trigger] row@[jj]@ == self@[jj][i as int],
                decreases n - j,
            {
                row.push(self.at(j, i));
                j = j + 1;
            }
            rows.push(row);
            i = i + 1;
        }
        proof {
            assert(grid_view(rows@) =~~= m_transpose(self@));
        }
        Matrix { data: rows }
    }

    /// The matrix product; sizes must agree, and order matters.
    pub fn mul_matrix(&self, rhs: &Matrix) -> (r: Self)
        requires
            m_wf(self@),
            m_wf(rhs@),
            self@.len() == rhs@.len(),
        ensures
            r@ == m_mul(self@, rhs@),
            m_wf(r@),
    {
        let n: usize = self.data.len();
        let mut rows: Vec<Vec<Fx>> = Vec::new();
        let mut i: usize = 0;
        while i < n
            invariant
                i <= n,
                n == self@.len(),
                n == rhs@.len(),
                m_wf(self@),
                m_wf(rhs@),
                rows@.len() == i as int,
                forall|ii: int|
                    0 <= ii < i as int ==> (#[trigger] rows@[ii])@.map_values(|f: Fx| f@) =~= m_mul(
                        self@,
                        rhs@,
                    )[ii],
            decreases n - i,
        {
            let mut row: Vec<Fx> = Vec::new();
            let mut j: usize = 0;
            while j < n
                invariant
                    i < n,
                    j <= n,
                    n == self@.len(),
                    n == rhs@.len(),
                    m_wf(self@),
                    m_wf(rhs@),
                    row@.len() == j as int,
                    forall|jj: int|
                        0 <= jj < j as int ==> #[trigger] row@[jj]@ == m_mul_cell_k(
                            self@,
                            rhs@,
                            i as int,
                            jj,
                            n as nat,
                        ),
                decreases n - j,
            {
                let mut acc: Fx = Fx::zero();
                let mut k: usize = 0;
                while k < n
                    invariant
                        i < n,
                        j < n,
                        k <= n,
                        n == self@.len(),
                        n == rhs@.len(),
                        m_wf(self@),
                        m_wf(rhs@),
                        acc@ == m_mul_cell_k(self@, rhs@, i as int, j as int, k as nat),
                    decreases n - k,
                {
                    acc = acc.add(self.at(i, k).mul(rhs.at(k, j)));
                    k = k + 1;
                }
                row.push(acc);
                j = j + 1;
            }
            rows.push(row);
            i = i + 1;
        }
        proof {
            assert(grid_view(rows@) =~~= m_mul(self@, rhs@));
        }
        Matrix { data: rows }
    }

    /// A four-by-four matrix applied to a homogeneous tuple; `w` passes
    /// through the transform untouched only where the last row says so.
    pub fn mul_coord(&self, rhs: Coord) -> (r: Coord)
        requires
            m_wf(self@),
            self@.len() == 4,
        ensures
            r@ == m_apply(self@, rhs@),
    {
        let x: Fx = self.at(0, 0).mul(rhs.get_x()).add(self.at(0, 1).mul(rhs.get_y())).add(
            self.at(0, 2).mul(rhs.get_z()),
        ).add(self.at(0, 3).mul(rhs.get_w()));
        let y: Fx = self.at(1, 0).mul(rhs.get_x()).add(self.at(1, 1).mul(rhs.get_y())).add(
            self.at(1, 2).mul(rhs.get_z()),
        ).add(self.at(1, 3).mul(rhs.get_w()));
        let z: Fx = self.at(2, 0).mul(rhs.get_x()).add(self.at(2, 1).mul(rhs.get_y())).add(
            self.at(2, 2).mul(rhs.get_z()),
        ).add(self.at(2, 3).mul(rhs.get_w()));
        let w: Fx = self.at(3, 0).mul(rhs.get_x()).add(self.at(3, 1).mul(rhs.get_y())).add(
            self.at(3, 2).mul(rhs.get_z()),
        ).add(self.at(3, 3).mul(rhs.get_w()));
        Coord::new(x, y, z, w)
    }

    /// The matrix applied to a plain list of the same length.
    pub fn mul_vec(&self, rhs: &Vec<Fx>) -> (r: Vec<Fx>)
        requires
            m_wf(self@),
            rhs@.len() == self@.len(),
        ensures
            list_view(r@) == m_apply_list(self@, list_view(rhs@)),
    {
        let n: usize = self.data.len();
        let mut out: Vec<Fx> = Vec::new();
        let mut i: usize = 0;
        while i < n
            invariant
                i <= n,
                n == self@.len(),
                rhs@.len() == n,
                m_wf(self@),
                out@.len() == i as int,
                forall|ii: int|
                    0 <= ii < i as int ==> #[trigger] out@[ii]@ == m_apply_list_k(
                        self@,
                        list_view(rhs@),
                        ii,
                        n as nat,
                    ),
            decreases n - i,
        {
            let mut acc: Fx = Fx::zero();
            let mut k: usize = 0;
            while k < n
                invariant
                    i < n,
                    k <= n,
                    n == self@.len(),
                    rhs@.len() == n,
                    m_wf(self@),
                    acc@ == m_apply_list_k(self@, list_view(rhs@), i as int, k as nat),
                decreases n - k,
            {
                acc = acc.add(self.at(i, k).mul(rhs[k]));
                k = k + 1;
            }
            out.push(acc);
            i = i + 1;
        }
        proof {
            assert(list_view(out@) =~= m_apply_list(self@, list_view(rhs@)));
        }
        out
    }

    /// The matrix with one row and one column removed.
    pub fn sub_matrix(&self, row: usize, col: usize) -> (r: Self)
        requires
            m_wf(self@),
            self@.len() >= 3,
            row < self@.len(),
            col < self@.len(),
        ensures
            r@ == m_sub(self@, row as int, col as int),
            m_wf(r@),
    {
        let n: usize = self.data.len();
        let mut rows: Vec<Vec<Fx>> = Vec::new();
        let mut i: usize = 0;
        while i < n - 1
            invariant
                i <= n - 1,
                3 <= n <= 4,
                n == self@.len(),
                m_wf(self@),
                row < n,
                col < n,
                rows@.len() == i as int,
                forall|ii: int|
                    0 <= ii < i as int ==> (#[trigger] rows@[ii])@.map_values(|f: Fx| f@) =~= m_sub(
                        self@,
                        row as int,
                        col as int,
                    )[ii],
            decreases n - 1 - i,
        {
            let si: usize = if i < row { i } else { i + 1 };
            let mut cells: Vec<Fx> = Vec::new();
            let mut j: usize = 0;
            while j < n - 1
                invariant
                    i < n - 1,
                    j <= n - 1,
                    3 <= n <= 4,
                    n == self@.len(),
                    m_wf(self@),
                    row < n,
                    col < n,
                    si as int == m_skip(i as int, row as int),
                    cells@.len() == j as int,
                    forall|jj: int|
                        0 <= jj < j as int ==> #[trigger] cells@[jj]@ == self@[si as int][m_skip(
                            jj,
                            col as int,
                        )],
                decreases n - 1 - j,
            {
                let sj: usize = if j < col { j } else { j + 1 };
                cells.push(self.at(si, sj));
                j = j + 1;
            }
            rows.push(cells);
            i = i + 1;
        }
        proof {
            assert(grid_view(rows@) =~~= m_sub(self@, row as int, col as int));
        }
        Matrix { data: rows }
    }

    /// Determinant of the top-left two-by-two cells.
    pub fn determinate_2x2(&self) -> (r: Fx)
        requires
            m_wf(self@),
        ensures
            r@ == m_det2(self@),
    {
        self.at(0, 0).mul(self.at(1, 1)).sub(self.at(1, 0).mul(self.at(0, 1)))
    }

    /// The minor: the determinant of the matrix with one row and one
    /// column removed; present whenever that submatrix is still square of
    /// edge length at least two.
    pub fn minor(&self, row: usize, col: usize) -> (r: Option<Fx>)
        requires
            m_wf(self@),
            self@.len() >= 3,
            row < self@.len(),
            col < self@.len(),
        ensures
            r matches Some(v) && v@ == m_minor(self@, row as int, col as int),
        decreases self@.len(), 0int,
    {
        let sub: Matrix = self.sub_matrix(row, col);
        if sub.data.len() >= 2 {
            Some(sub.determinate())
        } else {
            None
        }
    }

    /// The signed minor.
    pub fn cofactor(&self, row: usize, col: usize) -> (r: Fx)
        requires
            m_wf(self@),
            self@.len() >= 3,
            row < self@.len(),
            col < self@.len(),
        ensures
            r@ == m_cof(self@, row as int, col as int),
        decreases self@.len(), 1int,
    {
        let out: Fx = self.minor(row, col).unwrap();
        if (row + col) % 2 == 1 {
            out.neg()
        } else {
            out
        }
    }

    /// The determinant: the two-by-two base case, or cofactor expansion
    /// along the first row.
    pub fn determinate(&self) -> (r: Fx)
        requires
            m_wf(self@),
        ensures
            r@ == m_det(self@),
        decreases self@.len(), 2int,
    {
        let n: usize = self.data.len();
        if n == 2 {
            return self.determinate_2x2();
        }
        let mut det: Fx = Fx::zero();
        let mut idx: usize = 0;
        while idx < n
            invariant
                idx <= n,
                3 <= n <= 4,
                n == self@.len(),
                m_wf(self@),
                det@ == m_det_row(self@, idx as nat),
            decreases n - idx,
        {
            det = det.add(self.at(0, idx).mul(self.cofactor(0, idx)));
            idx = idx + 1;
        }
        det
    }

    /// The inverse: absent exactly when the determinant is zero; otherwise
    /// the transposed cofactor matrix with every cell divided by the
    /// determinant.
    pub fn inverse(&self) -> (r: Option<Self>)
        requires
            m_wf(self@),
            self@.len() >= 3,
        ensures
            (r is Some) == (m_det(self@) != 0),
            r matches Some(inv) ==> inv@ == m_inv(self@) && m_wf(inv@),
    {
        let det: Fx = self.determinate();
        if det.is_zero() {
            return None;
        }
        let n: usize = self.data.len();
        let mut rows: Vec<Vec<Fx>> = Vec::new();
        let mut i: usize = 0;
        while i < n
            invariant
                i <= n,
                3 <= n <= 4,
                n == self@.len(),
                m_wf(self@),
                det@ == m_det(self@),
                det@ != 0,
                rows@.len() == i as int,
                forall|ii: int|
                    0 <= ii < i as int ==> (#[trigger] rows@[ii])@.map_values(|f: Fx| f@) =~= m_inv(
                        self@,
                    )[ii],
            decreases n - i,
        {
            let mut cells: Vec<Fx> = Vec::new();
            let mut j: usize = 0;
            while j < n
                invariant
                    i < n,
                    j <= n,
                    3 <= n <= 4,
                    n == self@.len(),
                    m_wf(self@),
                    det@ == m_det(self@),
                    det@ != 0,
                    cells@.len() == j as int,
                    forall|jj: int|
                        0 <= jj < j as int ==> #[trigger] cells@[jj]@ == fx_div(
                            m_cof(self@, jj, i as int),
                            m_det(self@),
                        ),
                decreases n - j,
            {
                cells.push(self.cofactor(j, i).div(det));
                j = j + 1;
            }
            rows.push(cells);
            i = i + 1;
        }
        proof {
            assert(grid_view(rows@) =~~= m_inv(self@));
        }
        Some(Matrix { data: rows })
    }

    /// The view transform built from the camera basis: the eye position,
    /// the point looked at, and the up hint, which must be a nonzero
    /// vector; the points must differ.
    pub fn view_transformation(pos: Coord, towards: Coord, up: Coord) -> (r: Self)
        requires
            v4_is_point(pos@),
            v4_is_point(towards@),
            v4_is_vec(up@),
            v4_mag(v4_sub(towards@, pos@)) != 0,
            v4_mag(up@) != 0,
        ensures
            r@ == m_view(pos@, towards@, up@),
            m_wf(r@),
    {
        proof {
            crate::fx::lemma_fx_div_zero(v4_mag(v4_sub(towards@, pos@)));
            crate::fx::lemma_fx_div_zero(v4_mag(up@));
        }
        let forward: Coord = towards.sub(pos).normalized();
        let up_n: Coord = up.normalized();
        let left: Coord = forward.cross(&up_n);
        let true_up: Coord = left.cross(&forward);
        let nil: Fx = Fx::zero();
        let one: Fx = Fx::one();
        let data: Vec<Vec<Fx>> = grid4(
            row4(left.get_x(), left.get_y(), left.get_z(), nil),
            row4(true_up.get_x(), true_up.get_y(), true_up.get_z(), nil),
            row4(forward.get_x().neg(), forward.get_y().neg(), forward.get_z().neg(), nil),
            row4(nil, nil, nil, one),
        );
        proof {
            assert(grid_view(data@) =~~= m_orientation(left@, true_up@, forward@));
        }
        let orientation: Matrix = Matrix { data };
        let shift: Matrix = Self::translation(
            pos.get_x().neg(),
            pos.get_y().neg(),
            pos.get_z().neg(),
        );
        orientation.mul_matrix(&shift)
    }
}

} // verus!
