use vstd::prelude::*;

use crate::face::{dot3, opposite_spec, CubeFace, IVec3};
use crate::harmonics::{basis_numerator_spec, basis_numerators, lemma_basis_parity, odd_along};
use crate::texel::{
    face_axis, footprint_spec, lemma_direction_by_face, lemma_opposite_texels_mirror,
    mirror_footprint, mirror_texel, mirrors_column, texel_direction,
    texel_direction_spec, texel_footprint, Corner,
};

verus! {

/// Everything the projection needs of one texel, in exact integers.
pub struct TexelSample {
    /// Direction through the texel, scaled by `size - 1`.
    pub direction: IVec3,
    /// Squared length of `direction`.
    pub length_sq: i128,
    /// Numerators of the nine basis functions at `direction`.
    pub numerators: [i128; 9],
    /// The texel's four signed corners, as numerators over `size`.
    pub footprint: [Corner; 4],
}

/// Whether `s` describes texel `(x, y)` of face `f` on faces of `size` texels.
pub open spec fn is_sample_of(s: TexelSample, f: CubeFace, x: int, y: int, size: int) -> bool {
    let d = texel_direction_spec(f, x, y, size);
    &&& s.direction@ == d
    &&& s.length_sq == dot3(d, d)
    &&& forall|i: int| 0 <= i < 9 ==> #[trigger] s.numerators@[i] == basis_numerator_spec(i, d)
    &&& s.footprint@.len() == 4
    &&& forall|k: int| 0 <= k < 4 ==> (#[trigger] s.footprint@[k])@ == footprint_spec(x, y, size)[k]
}

proof fn lemma_direction_bounded(f: CubeFace, x: int, y: int, size: int)
    requires
        2 <= size <= 0x1_0000_0000,
        0 <= x < size,
        0 <= y < size,
    ensures
        ({
            let d = texel_direction_spec(f, x, y, size);
            &&& -(size - 1) <= d.0 <= size - 1
            &&& -(size - 1) <= d.1 <= size - 1
            &&& -(size - 1) <= d.2 <= size - 1
        }),
{
    lemma_direction_by_face(f, x, y, size);
}

/// The exact data of texel `(x, y)` of `face`.
pub fn texel_sample(face: CubeFace, x: u32, y: u32, size: u32) -> (r: TexelSample)
    requires
        2 <= size,
        x < size,
        y < size,
    ensures
        is_sample_of(r, face, x as int, y as int, size as int),
{
    let d = texel_direction(face, x, y, size);
    proof {
        lemma_direction_bounded(face, x as int, y as int, size as int);
    }
    let numerators = basis_numerators(d);
    let (a, b, c) = (d.x as i128, d.y as i128, d.z as i128);
    assert(a * a + b * b + c * c <= 0x4_0000_0000_0000_0000) by (nonlinear_arith)
        requires
            -0x1_0000_0000 <= a <= 0x1_0000_0000,
            -0x1_0000_0000 <= b <= 0x1_0000_0000,
            -0x1_0000_0000 <= c <= 0x1_0000_0000,
    ;
    assert(a * a >= 0 && b * b >= 0 && c * c >= 0) by (nonlinear_arith);
    TexelSample {
        direction: d,
        length_sq: a * a + b * b + c * c,
        numerators,
        footprint: texel_footprint(x, y, size),
    }
}

/// Mirrored texels of opposite faces cancel in the coefficients that are odd
/// along the faces' axis. The texel of the opposite face at the mirrored
/// position has the mirrored footprint (hence the same solid angle), a
/// direction of the same length, and the basis numerators of this texel,
/// negated exactly for the coefficients odd along the axis, among them the
/// band-1 coefficient of that axis. Where the two texels hold the same colour,
/// their contributions to such a coefficient are therefore opposite.
pub proof fn lemma_mirrored_texels_cancel_odd_terms(
    f: CubeFace,
    x: int,
    y: int,
    size: int,
    i: int,
)
    requires
        2 <= size,
        0 <= x < size,
        0 <= y < size,
        0 <= i < 9,
    ensures
        ({
            let (mx, my) = mirror_texel(f, x, y, size);
            let d = texel_direction_spec(f, x, y, size);
            let e = texel_direction_spec(opposite_spec(f), mx, my, size);
            &&& 0 <= mx < size
            &&& 0 <= my < size
            &&& dot3(e, e) == dot3(d, d)
            &&& footprint_spec(mx, my, size) == mirror_footprint(
                footprint_spec(x, y, size),
                mirrors_column(f),
            )
            &&& basis_numerator_spec(i, e) == if odd_along(i, face_axis(f)) {
                -basis_numerator_spec(i, d)
            } else {
                basis_numerator_spec(i, d)
            }
        }),
{
    lemma_opposite_texels_mirror(f, x, y, size);
    let d = texel_direction_spec(f, x, y, size);
    lemma_basis_parity(i, d, face_axis(f));
    assert((-d.0) * (-d.0) == d.0 * d.0 && (-d.1) * (-d.1) == d.1 * d.1 && (-d.2) * (-d.2)
        == d.2 * d.2) by (nonlinear_arith);
}

} // verus!
