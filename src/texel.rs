use vstd::prelude::*;

use crate::face::{
    add3, basis_spec, dot3, is_axis_like, opposite_spec, scale3, CubeFace, FaceBasis, IVec3,
};

verus! {

/// Numerator of the sampling coordinate of texel index `i` on a face of
/// `size` texels: the coordinate is `2 i / (size - 1) - 1`, so the first and
/// last texels sit exactly on the face's edges. The denominator is `size - 1`.
pub open spec fn sample_coord(i: int, size: int) -> int {
    2 * i - (size - 1)
}

/// The direction through texel `(x, y)` of face `f`, scaled by `size - 1`:
/// `(size - 1) * (u * fu + v * fv + n)` where `fu` and `fv` are the sampling
/// coordinates of the texel.
pub open spec fn texel_direction_spec(f: CubeFace, x: int, y: int, size: int) -> (int, int, int) {
    let (u, v, n) = basis_spec(f);
    add3(
        add3(scale3(u, sample_coord(x, size)), scale3(v, sample_coord(y, size))),
        scale3(n, size - 1),
    )
}

/// One corner of a texel's footprint, as numerators over the face size, with
/// the sign it carries in the four-corner sum of the solid-angle integral.
#[derive(Clone, Copy, Debug, PartialEq, Eq, Structural)]
pub struct Corner {
    pub u: i64,
    pub v: i64,
    pub sign: i64,
}

impl View for Corner {
    type V = (int, int, int);

    open spec fn view(&self) -> (int, int, int) {
        (self.u as int, self.v as int, self.sign as int)
    }
}

/// Numerator of the lower edge of texel index `i` on a face of `size` texels:
/// the texel spans `[(2 i - size) / size, (2 i + 2 - size) / size]`, centred on
/// `2 (i + 1/2) / size - 1`.
pub open spec fn edge_lo(i: int, size: int) -> int {
    2 * i - size
}

pub open spec fn edge_hi(i: int, size: int) -> int {
    2 * i + 2 - size
}

/// The corners of texel `(x, y)` with their signs: the solid angle of the
/// texel is `sum of sign * A(u / size, v / size)` over the four, where
/// `A(a, b) = atan2(a b, sqrt(a^2 + b^2 + 1))`.
pub open spec fn footprint_spec(x: int, y: int, size: int) -> Seq<(int, int, int)> {
    let x0 = edge_lo(x, size);
    let x1 = edge_hi(x, size);
    let y0 = edge_lo(y, size);
    let y1 = edge_hi(y, size);
    seq![(x0, y0, 1), (x0, y1, -1), (x1, y0, -1), (x1, y1, 1)]
}

/// `c * t` for an axis component `c`.
fn axis_mul(c: i64, t: i64) -> (r: i64)
    requires
        -1 <= c <= 1,
        t > i64::MIN,
    ensures
        r == c * t,
{
    if c == 0 {
        assert(c * t == 0);
        0
    } else if c == 1 {
        assert(c * t == t);
        t
    } else {
        assert(c * t == -t) by (nonlinear_arith)
            requires
                c == -1,
        ;
        -t
    }
}

/// `a * s + b * t + c * w` for axis components `a`, `b`, `c`.
fn axis_combine(a: i64, s: i64, b: i64, t: i64, c: i64, w: i64) -> (r: i64)
    requires
        -1 <= a <= 1,
        -1 <= b <= 1,
        -1 <= c <= 1,
        -0x1_0000_0000 <= s <= 0x1_0000_0000,
        -0x1_0000_0000 <= t <= 0x1_0000_0000,
        -0x1_0000_0000 <= w <= 0x1_0000_0000,
    ensures
        r == a * s + b * t + c * w,
{
    let p = axis_mul(a, s);
    let q = axis_mul(b, t);
    let o = axis_mul(c, w);
    assert(-0x1_0000_0000 <= p <= 0x1_0000_0000) by (nonlinear_arith)
        requires
            p == a * s,
            -1 <= a <= 1,
            -0x1_0000_0000 <= s <= 0x1_0000_0000,
    ;
    assert(-0x1_0000_0000 <= q <= 0x1_0000_0000) by (nonlinear_arith)
        requires
            q == b * t,
            -1 <= b <= 1,
            -0x1_0000_0000 <= t <= 0x1_0000_0000,
    ;
    assert(-0x1_0000_0000 <= o <= 0x1_0000_0000) by (nonlinear_arith)
        requires
            o == c * w,
            -1 <= c <= 1,
            -0x1_0000_0000 <= w <= 0x1_0000_0000,
    ;
    p + q + o
}

/// The direction through texel `(x, y)` of `face`, scaled by `size - 1` so
/// that it has integer components. Its component along the face normal is
/// `size - 1`, and along the column and row axes the sampling coordinates'
/// numerators.
pub fn texel_direction(face: CubeFace, x: u32, y: u32, size: u32) -> (r: IVec3)
    requires
        2 <= size,
        x < size,
        y < size,
    ensures
        r@ == texel_direction_spec(face, x as int, y as int, size as int),
{
    let b: FaceBasis = face.basis();
    let fu: i64 = 2 * (x as i64) - (size as i64 - 1);
    let fv: i64 = 2 * (y as i64) - (size as i64 - 1);
    let w: i64 = size as i64 - 1;
    IVec3 {
        x: axis_combine(b.u.x, fu, b.v.x, fv, b.n.x, w),
        y: axis_combine(b.u.y, fu, b.v.y, fv, b.n.y, w),
        z: axis_combine(b.u.z, fu, b.v.z, fv, b.n.z, w),
    }
}

/// The four signed corners of texel `(x, y)` on a face of `size` texels,
/// as numerators over `size`.
pub fn texel_footprint(x: u32, y: u32, size: u32) -> (r: [Corner; 4])
    requires
        x < size,
        y < size,
    ensures
        r@.len() == 4,
        forall|k: int| 0 <= k < 4 ==> (#[trigger] r@[k])@ == footprint_spec(x as int, y as int, size as int)[k],
{
    let x0: i64 = 2 * (x as i64) - size as i64;
    let x1: i64 = 2 * (x as i64) + 2 - size as i64;
    let y0: i64 = 2 * (y as i64) - size as i64;
    let y1: i64 = 2 * (y as i64) + 2 - size as i64;
    [
        Corner { u: x0, v: y0, sign: 1 },
        Corner { u: x0, v: y1, sign: -1 },
        Corner { u: x1, v: y0, sign: -1 },
        Corner { u: x1, v: y1, sign: 1 },
    ]
}

/// `c * k` for an axis component `c`, without multiplication.
pub open spec fn axis_times(c: int, k: int) -> int {
    if c == 0 {
        0
    } else if c == 1 {
        k
    } else {
        -k
    }
}

proof fn lemma_scale_axis(u: (int, int, int), k: int)
    requires
        is_axis_like(u),
    ensures
        scale3(u, k) == (axis_times(u.0, k), axis_times(u.1, k), axis_times(u.2, k)),
{
    assert(u.0 * k == axis_times(u.0, k)) by (nonlinear_arith)
        requires
            -1 <= u.0 <= 1,
    ;
    assert(u.1 * k == axis_times(u.1, k)) by (nonlinear_arith)
        requires
            -1 <= u.1 <= 1,
    ;
    assert(u.2 * k == axis_times(u.2, k)) by (nonlinear_arith)
        requires
            -1 <= u.2 <= 1,
    ;
}

proof fn lemma_dot_axis(d: (int, int, int), u: (int, int, int))
    requires
        is_axis_like(u),
    ensures
        dot3(d, u) == axis_times(u.0, d.0) + axis_times(u.1, d.1) + axis_times(u.2, d.2),
{
    lemma_scale_axis(u, d.0);
    lemma_scale_axis(u, d.1);
    lemma_scale_axis(u, d.2);
    assert(d.0 * u.0 == u.0 * d.0 && d.1 * u.1 == u.1 * d.1 && d.2 * u.2 == u.2 * d.2)
        by (nonlinear_arith);
}

/// The scaled direction of texel `(x, y)`, face by face, in terms of the
/// sampling coordinates' numerators `a` (column) and `b` (row).
pub open spec fn direction_by_face(f: CubeFace, a: int, b: int, w: int) -> (int, int, int) {
    match f {
        CubeFace::PosX => (w, -b, -a),
        CubeFace::NegX => (-w, -b, a),
        CubeFace::PosY => (a, w, b),
        CubeFace::NegY => (a, -w, -b),
        CubeFace::PosZ => (a, -b, w),
        CubeFace::NegZ => (-a, -b, -w),
    }
}

pub(crate) proof fn lemma_direction_by_face(f: CubeFace, x: int, y: int, size: int)
    ensures
        texel_direction_spec(f, x, y, size) == direction_by_face(
            f,
            sample_coord(x, size),
            sample_coord(y, size),
            size - 1,
        ),
{
    let (u, v, n) = basis_spec(f);
    lemma_scale_axis(u, sample_coord(x, size));
    lemma_scale_axis(v, sample_coord(y, size));
    lemma_scale_axis(n, size - 1);
}

/// The reconstructed direction lies on the face: its component along the
/// normal is `size - 1`, along the column and row axes the sampling
/// coordinates' numerators, each within `[-(size - 1), size - 1]` and reaching
/// the bounds on the first and last texels. In particular it is never zero,
/// so it can always be normalised.
pub proof fn lemma_texel_direction_on_face(f: CubeFace, x: int, y: int, size: int)
    requires
        2 <= size,
        0 <= x < size,
        0 <= y < size,
    ensures
        ({
            let d = texel_direction_spec(f, x, y, size);
            let (u, v, n) = basis_spec(f);
            &&& dot3(d, n) == size - 1
            &&& dot3(d, u) == sample_coord(x, size)
            &&& dot3(d, v) == sample_coord(y, size)
            &&& d != (0int, 0int, 0int)
        }),
        -(size - 1) <= sample_coord(x, size) <= size - 1,
        x == 0 ==> sample_coord(x, size) == -(size - 1),
        x == size - 1 ==> sample_coord(x, size) == size - 1,
{
    lemma_direction_by_face(f, x, y, size);
    let d = texel_direction_spec(f, x, y, size);
    let (u, v, n) = basis_spec(f);
    lemma_dot_axis(d, u);
    lemma_dot_axis(d, v);
    lemma_dot_axis(d, n);
    match f {
        CubeFace::PosX => {},
        CubeFace::NegX => {},
        CubeFace::PosY => {},
        CubeFace::NegY => {},
        CubeFace::PosZ => {},
        CubeFace::NegZ => {},
    }
}

/// The footprints of a row's texels tile the face: each spans two units over
/// `size`, the first starts at `-size`, the last ends at `size`, each starts
/// where the one before ends, and its centre is `2 (x + 1/2) / size - 1`.
pub proof fn lemma_footprints_tile_face(x: int, size: int)
    requires
        0 <= x < size,
    ensures
        edge_hi(x, size) - edge_lo(x, size) == 2,
        -size <= edge_lo(x, size) < edge_hi(x, size) <= size,
        edge_lo(0, size) == -size,
        edge_hi(size - 1, size) == size,
        x + 1 < size ==> edge_hi(x, size) == edge_lo(x + 1, size),
        edge_lo(x, size) + edge_hi(x, size) == 2 * (2 * x + 1 - size),
{
}

/// The axis along which a face looks: 0 for x, 1 for y, 2 for z.
pub open spec fn face_axis(f: CubeFace) -> int {
    match f {
        CubeFace::PosX | CubeFace::NegX => 0,
        CubeFace::PosY | CubeFace::NegY => 1,
        CubeFace::PosZ | CubeFace::NegZ => 2,
    }
}

/// `a` with its component along `axis` negated.
pub open spec fn reflect3(a: (int, int, int), axis: int) -> (int, int, int) {
    if axis == 0 {
        (-a.0, a.1, a.2)
    } else if axis == 1 {
        (a.0, -a.1, a.2)
    } else {
        (a.0, a.1, -a.2)
    }
}

/// Whether the texel that mirrors another on the opposite face is found by
/// flipping its column (true) or its row (false).
pub open spec fn mirrors_column(f: CubeFace) -> bool {
    face_axis(f) != 1
}

/// The texel of the opposite face that mirrors texel `(x, y)` of `f`.
pub open spec fn mirror_texel(f: CubeFace, x: int, y: int, size: int) -> (int, int) {
    if mirrors_column(f) {
        (size - 1 - x, y)
    } else {
        (x, size - 1 - y)
    }
}

/// A corner reflected across the column (`in_u`) or row axis; its sign in the
/// four-corner sum flips with it.
pub open spec fn mirror_corner(c: (int, int, int), in_u: bool) -> (int, int, int) {
    if in_u {
        (-c.0, c.1, -c.2)
    } else {
        (c.0, -c.1, -c.2)
    }
}

/// A footprint reflected across the column or row axis, its corners put back
/// in the order low-low, low-high, high-low, high-high.
pub open spec fn mirror_footprint(fp: Seq<(int, int, int)>, in_u: bool) -> Seq<(int, int, int)> {
    if in_u {
        seq![
            mirror_corner(fp[2], in_u),
            mirror_corner(fp[3], in_u),
            mirror_corner(fp[0], in_u),
            mirror_corner(fp[1], in_u),
        ]
    } else {
        seq![
            mirror_corner(fp[1], in_u),
            mirror_corner(fp[0], in_u),
            mirror_corner(fp[3], in_u),
            mirror_corner(fp[2], in_u),
        ]
    }
}

/// Opposite faces sample mirror images of one another. The texel of the
/// opposite face at the mirrored position looks along the reflection of this
/// texel's direction through the plane normal to the face's axis, and its
/// footprint is the reflection of this texel's footprint. The area element
/// `A(a, b)` is odd in each argument, so the mirrored footprint, whose
/// corners are reflected and whose signs are flipped, has the same solid angle.
pub proof fn lemma_opposite_texels_mirror(f: CubeFace, x: int, y: int, size: int)
    requires
        2 <= size,
        0 <= x < size,
        0 <= y < size,
    ensures
        ({
            let (mx, my) = mirror_texel(f, x, y, size);
            &&& 0 <= mx < size
            &&& 0 <= my < size
            &&& texel_direction_spec(opposite_spec(f), mx, my, size) == reflect3(
                texel_direction_spec(f, x, y, size),
                face_axis(f),
            )
            &&& footprint_spec(mx, my, size) == mirror_footprint(
                footprint_spec(x, y, size),
                mirrors_column(f),
            )
        }),
{
    let (mx, my) = mirror_texel(f, x, y, size);
    lemma_direction_by_face(f, x, y, size);
    lemma_direction_by_face(opposite_spec(f), mx, my, size);
    assert(footprint_spec(mx, my, size) =~= mirror_footprint(
        footprint_spec(x, y, size),
        mirrors_column(f),
    ));
}

} // verus!
