use vstd::prelude::*;

verus! {

/// A vector of three integers.
#[derive(Clone, Copy, Debug, PartialEq, Eq, Structural)]
pub struct IVec3 {
    pub x: i64,
    pub y: i64,
    pub z: i64,
}

impl View for IVec3 {
    type V = (int, int, int);

    open spec fn view(&self) -> (int, int, int) {
        (self.x as int, self.y as int, self.z as int)
    }
}

pub open spec fn dot3(a: (int, int, int), b: (int, int, int)) -> int {
    a.0 * b.0 + a.1 * b.1 + a.2 * b.2
}

pub open spec fn cross3(a: (int, int, int), b: (int, int, int)) -> (int, int, int) {
    (a.1 * b.2 - a.2 * b.1, a.2 * b.0 - a.0 * b.2, a.0 * b.1 - a.1 * b.0)
}

pub open spec fn add3(a: (int, int, int), b: (int, int, int)) -> (int, int, int) {
    (a.0 + b.0, a.1 + b.1, a.2 + b.2)
}

pub open spec fn scale3(a: (int, int, int), k: int) -> (int, int, int) {
    (a.0 * k, a.1 * k, a.2 * k)
}

/// Every component of `a` is -1, 0 or 1.
pub open spec fn is_axis_like(a: (int, int, int)) -> bool {
    &&& -1 <= a.0 <= 1
    &&& -1 <= a.1 <= 1
    &&& -1 <= a.2 <= 1
}

impl IVec3 {
    pub fn new(x: i64, y: i64, z: i64) -> (r: IVec3)
        ensures
            r@ == (x as int, y as int, z as int),
    {
        IVec3 { x, y, z }
    }
}

/// The six faces of a cubemap, in their storage order.
#[derive(Clone, Copy, Debug, PartialEq, Eq, Structural)]
pub enum CubeFace {
    PosX,
    NegX,
    PosY,
    NegY,
    PosZ,
    NegZ,
}

/// Position of a face in the storage order +X, -X, +Y, -Y, +Z, -Z.
pub open spec fn face_index(f: CubeFace) -> int {
    match f {
        CubeFace::PosX => 0,
        CubeFace::NegX => 1,
        CubeFace::PosY => 2,
        CubeFace::NegY => 3,
        CubeFace::PosZ => 4,
        CubeFace::NegZ => 5,
    }
}

/// The face stored at position `i` (for `0 <= i < 6`).
pub open spec fn face_at(i: int) -> CubeFace {
    if i == 0 {
        CubeFace::PosX
    } else if i == 1 {
        CubeFace::NegX
    } else if i == 2 {
        CubeFace::PosY
    } else if i == 3 {
        CubeFace::NegY
    } else if i == 4 {
        CubeFace::PosZ
    } else {
        CubeFace::NegZ
    }
}

/// The face across the cube's centre.
pub open spec fn opposite_spec(f: CubeFace) -> CubeFace {
    match f {
        CubeFace::PosX => CubeFace::NegX,
        CubeFace::NegX => CubeFace::PosX,
        CubeFace::PosY => CubeFace::NegY,
        CubeFace::NegY => CubeFace::PosY,
        CubeFace::PosZ => CubeFace::NegZ,
        CubeFace::NegZ => CubeFace::PosZ,
    }
}

/// The axes of a face: the direction in which texel columns grow, the
/// direction in which texel rows grow, and the outward normal.
pub open spec fn basis_spec(f: CubeFace) -> ((int, int, int), (int, int, int), (int, int, int)) {
    match f {
        CubeFace::PosX => ((0, 0, -1), (0, -1, 0), (1, 0, 0)),
        CubeFace::NegX => ((0, 0, 1), (0, -1, 0), (-1, 0, 0)),
        CubeFace::PosY => ((1, 0, 0), (0, 0, 1), (0, 1, 0)),
        CubeFace::NegY => ((1, 0, 0), (0, 0, -1), (0, -1, 0)),
        CubeFace::PosZ => ((1, 0, 0), (0, -1, 0), (0, 0, 1)),
        CubeFace::NegZ => ((-1, 0, 0), (0, -1, 0), (0, 0, -1)),
    }
}

/// The three axes of one face.
#[derive(Clone, Copy, Debug, PartialEq, Eq, Structural)]
pub struct FaceBasis {
    pub u: IVec3,
    pub v: IVec3,
    pub n: IVec3,
}

impl FaceBasis {
    pub open spec fn matches(self, f: CubeFace) -> bool {
        &&& self.u@ == basis_spec(f).0
        &&& self.v@ == basis_spec(f).1
        &&& self.n@ == basis_spec(f).2
    }
}

impl CubeFace {
    pub fn index(self) -> (r: usize)
        ensures
            r == face_index(self),
    {
        match self {
            CubeFace::PosX => 0,
            CubeFace::NegX => 1,
            CubeFace::PosY => 2,
            CubeFace::NegY => 3,
            CubeFace::PosZ => 4,
            CubeFace::NegZ => 5,
        }
    }

    /// The face stored at position `i`, if `i` names one.
    pub fn from_index(i: usize) -> (r: Option<CubeFace>)
        ensures
            i < 6 ==> r == Some(face_at(i as int)),
            i >= 6 ==> r is None,
    {
        if i == 0 {
            Some(CubeFace::PosX)
        } else if i == 1 {
            Some(CubeFace::NegX)
        } else if i == 2 {
            Some(CubeFace::PosY)
        } else if i == 3 {
            Some(CubeFace::NegY)
        } else if i == 4 {
            Some(CubeFace::PosZ)
        } else if i == 5 {
            Some(CubeFace::NegZ)
        } else {
            None
        }
    }

    pub fn opposite(self) -> (r: CubeFace)
        ensures
            r == opposite_spec(self),
    {
        match self {
            CubeFace::PosX => CubeFace::NegX,
            CubeFace::NegX => CubeFace::PosX,
            CubeFace::PosY => CubeFace::NegY,
            CubeFace::NegY => CubeFace::PosY,
            CubeFace::PosZ => CubeFace::NegZ,
            CubeFace::NegZ => CubeFace::PosZ,
        }
    }

    /// The axes of this face.
    pub fn basis(self) -> (r: FaceBasis)
        ensures
            r.matches(self),
            is_axis_like(r.u@),
            is_axis_like(r.v@),
            is_axis_like(r.n@),
    {
        match self {
            CubeFace::PosX => FaceBasis {
                u: IVec3::new(0, 0, -1),
                v: IVec3::new(0, -1, 0),
                n: IVec3::new(1, 0, 0),
            },
            CubeFace::NegX => FaceBasis {
                u: IVec3::new(0, 0, 1),
                v: IVec3::new(0, -1, 0),
                n: IVec3::new(-1, 0, 0),
            },
            CubeFace::PosY => FaceBasis {
                u: IVec3::new(1, 0, 0),
                v: IVec3::new(0, 0, 1),
                n: IVec3::new(0, 1, 0),
            },
            CubeFace::NegY => FaceBasis {
                u: IVec3::new(1, 0, 0),
                v: IVec3::new(0, 0, -1),
                n: IVec3::new(0, -1, 0),
            },
            CubeFace::PosZ => FaceBasis {
                u: IVec3::new(1, 0, 0),
                v: IVec3::new(0, -1, 0),
                n: IVec3::new(0, 0, 1),
            },
            CubeFace::NegZ => FaceBasis {
                u: IVec3::new(-1, 0, 0),
                v: IVec3::new(0, -1, 0),
                n: IVec3::new(0, 0, -1),
            },
        }
    }
}

/// The axes of all six faces in storage order: for each face its column
/// axis, its row axis and its outward normal.
pub fn get_cubemap_face_normals() -> (r: [[IVec3; 3]; 6])
    ensures
        forall|i: int|
            0 <= i < 6 ==> {
                &&& (#[trigger] r@[i])@[0]@ == basis_spec(face_at(i)).0
                &&& r@[i]@[1]@ == basis_spec(face_at(i)).1
                &&& r@[i]@[2]@ == basis_spec(face_at(i)).2
            },
{
    let px = CubeFace::PosX.basis();
    let nx = CubeFace::NegX.basis();
    let py = CubeFace::PosY.basis();
    let ny = CubeFace::NegY.basis();
    let pz = CubeFace::PosZ.basis();
    let nz = CubeFace::NegZ.basis();
    let r = [
        [px.u, px.v, px.n],
        [nx.u, nx.v, nx.n],
        [py.u, py.v, py.n],
        [ny.u, ny.v, ny.n],
        [pz.u, pz.v, pz.n],
        [nz.u, nz.v, nz.n],
    ];
    assert(r@[0]@[0] == px.u);
    r
}

/// Each face's axes are unit vectors at right angles to one another, and
/// crossing the row axis with the column axis gives the outward normal (so
/// column axis x row axis points inwards: rows run downwards on every face).
/// Opposite faces have opposite normals.
pub proof fn lemma_face_basis_orthonormal(f: CubeFace)
    ensures
        ({
            let (u, v, n) = basis_spec(f);
            &&& dot3(u, u) == 1
            &&& dot3(v, v) == 1
            &&& dot3(n, n) == 1
            &&& dot3(u, v) == 0
            &&& dot3(u, n) == 0
            &&& dot3(v, n) == 0
            &&& cross3(v, u) == n
            &&& basis_spec(opposite_spec(f)).2 == scale3(n, -1)
        }),
{
    match f {
        CubeFace::PosX => {},
        CubeFace::NegX => {},
        CubeFace::PosY => {},
        CubeFace::NegY => {},
        CubeFace::PosZ => {},
        CubeFace::NegZ => {},
    }
}

/// Positions and faces correspond one to one.
pub proof fn lemma_face_index_round_trip(f: CubeFace)
    ensures
        0 <= face_index(f) < 6,
        face_at(face_index(f)) == f,
{
}

} // verus!
