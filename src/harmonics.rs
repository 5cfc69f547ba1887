use vstd::prelude::*;

use crate::face::{dot3, IVec3};
use crate::texel::reflect3;

verus! {

/// Number of coefficients of second-order spherical harmonics.
pub const NUM_COEFFS: usize = 9;

/// Degree of the basis polynomial of coefficient `i`: 0 for band 0, 1 for
/// band 1, 2 for band 2.
pub open spec fn basis_degree_spec(i: int) -> int {
    if i == 0 {
        0
    } else if i <= 3 {
        1
    } else {
        2
    }
}

/// Numerator of basis function `i` at direction `d`. At the unit direction
/// `d / |d|` the basis function is this numerator over `|d|` to the power
/// `basis_degree_spec(i)`: 1; y, z, x; y x, y z, 3 z^2 - 1, z x, x^2 - y^2.
pub open spec fn basis_numerator_spec(i: int, d: (int, int, int)) -> int {
    let (x, y, z) = d;
    if i == 0 {
        1
    } else if i == 1 {
        y
    } else if i == 2 {
        z
    } else if i == 3 {
        x
    } else if i == 4 {
        y * x
    } else if i == 5 {
        y * z
    } else if i == 6 {
        3 * (z * z) - dot3(d, d)
    } else if i == 7 {
        z * x
    } else {
        x * x - y * y
    }
}

/// Weight of coefficient `i` as numerator and denominator: 4/17 for band 0,
/// 8/17 for band 1, 5/68 for band 2 but for its z x term (15/17) and its
/// x^2 - y^2 term (15/68).
pub open spec fn band_weight_spec(i: int) -> (int, int) {
    if i == 0 {
        (4, 17)
    } else if i <= 3 {
        (8, 17)
    } else if i <= 6 {
        (5, 68)
    } else if i == 7 {
        (15, 17)
    } else {
        (15, 68)
    }
}

/// What coefficient `i` adds up: its weight as a fraction and the degree of
/// its basis polynomial.
#[derive(Clone, Copy, Debug, PartialEq, Eq, Structural)]
pub struct BandTerm {
    pub weight_num: u32,
    pub weight_den: u32,
    pub degree: u32,
}

/// The weight and degree of coefficient `i`.
pub fn band_term(i: usize) -> (r: BandTerm)
    requires
        i < NUM_COEFFS,
    ensures
        (r.weight_num as int, r.weight_den as int) == band_weight_spec(i as int),
        r.degree == basis_degree_spec(i as int),
{
    if i == 0 {
        BandTerm { weight_num: 4, weight_den: 17, degree: 0 }
    } else if i <= 3 {
        BandTerm { weight_num: 8, weight_den: 17, degree: 1 }
    } else if i <= 6 {
        BandTerm { weight_num: 5, weight_den: 68, degree: 2 }
    } else if i == 7 {
        BandTerm { weight_num: 15, weight_den: 17, degree: 2 }
    } else {
        BandTerm { weight_num: 15, weight_den: 68, degree: 2 }
    }
}

/// Largest magnitude of a direction component that `basis_numerators` takes.
pub const MAX_COMPONENT: i64 = 0x4000_0000_0000_0000;

pub open spec fn component_in_range(c: int) -> bool {
    -MAX_COMPONENT <= c <= MAX_COMPONENT
}

fn mul_wide(a: i64, b: i64) -> (r: i128)
    requires
        component_in_range(a as int),
        component_in_range(b as int),
    ensures
        r == a * b,
        -0x1000_0000_0000_0000_0000_0000_0000_0000 <= r <= 0x1000_0000_0000_0000_0000_0000_0000_0000,
{
    assert(-0x1000_0000_0000_0000_0000_0000_0000_0000 <= a * b
        <= 0x1000_0000_0000_0000_0000_0000_0000_0000) by (nonlinear_arith)
        requires
            -0x4000_0000_0000_0000 <= a <= 0x4000_0000_0000_0000,
            -0x4000_0000_0000_0000 <= b <= 0x4000_0000_0000_0000,
    ;
    (a as i128) * (b as i128)
}

/// The numerators of the nine basis functions at direction `d`.
pub fn basis_numerators(d: IVec3) -> (r: [i128; 9])
    requires
        component_in_range(d.x as int),
        component_in_range(d.y as int),
        component_in_range(d.z as int),
    ensures
        forall|i: int| 0 <= i < 9 ==> #[trigger] r@[i] == basis_numerator_spec(i, d@),
{
    let xx = mul_wide(d.x, d.x);
    let yy = mul_wide(d.y, d.y);
    let zz = mul_wide(d.z, d.z);
    let yx = mul_wide(d.y, d.x);
    let yz = mul_wide(d.y, d.z);
    let zx = mul_wide(d.z, d.x);
    assert(xx >= 0 && yy >= 0 && zz >= 0) by (nonlinear_arith)
        requires
            xx == d.x * d.x,
            yy == d.y * d.y,
            zz == d.z * d.z,
    ;
    let r = [
        1,
        d.y as i128,
        d.z as i128,
        d.x as i128,
        yx,
        yz,
        3 * zz - (xx + yy + zz),
        zx,
        xx - yy,
    ];
    assert(r@[6] == basis_numerator_spec(6, d@));
    r
}

/// Whether basis function `i` changes sign when its direction is reflected
/// along `axis` (0 for x, 1 for y, 2 for z).
pub open spec fn odd_along(i: int, axis: int) -> bool {
    if axis == 0 {
        i == 3 || i == 4 || i == 7
    } else if axis == 1 {
        i == 1 || i == 4 || i == 5
    } else {
        i == 2 || i == 5 || i == 7
    }
}

/// Reflecting a direction along an axis negates the basis functions that are
/// odd along it and keeps the others; among them is the band-1 function of
/// that axis.
pub proof fn lemma_basis_parity(i: int, d: (int, int, int), axis: int)
    requires
        0 <= i < 9,
        0 <= axis < 3,
    ensures
        basis_numerator_spec(i, reflect3(d, axis)) == if odd_along(i, axis) {
            -basis_numerator_spec(i, d)
        } else {
            basis_numerator_spec(i, d)
        },
        odd_along(if axis == 0 { 3 } else { axis }, axis),
{
    let (x, y, z) = d;
    assert((-x) * (-x) == x * x && (-y) * (-y) == y * y && (-z) * (-z) == z * z) by (nonlinear_arith);
    assert(y * (-x) == -(y * x) && (-y) * x == -(y * x)) by (nonlinear_arith);
    assert(y * (-z) == -(y * z) && (-y) * z == -(y * z)) by (nonlinear_arith);
    assert(z * (-x) == -(z * x) && (-z) * x == -(z * x)) by (nonlinear_arith);
}

} // verus!
