use vstd::prelude::*;

verus! {

/// Why a set of faces cannot be projected.
#[derive(Clone, Copy, Debug, PartialEq, Eq, Structural)]
pub enum CubemapError {
    /// There are not exactly six faces.
    InvalidFaceCount,
    /// Some face is not square.
    FaceNotSquare,
    /// The faces are not all of one size.
    FaceSizeMismatch,
    /// The faces are too small to sample: fewer than two texels a side.
    DegenerateInput,
}

/// Number of faces of a cubemap.
pub const FACE_COUNT: usize = 6;

/// Some face of `dims` (width, height) is not square.
pub open spec fn some_face_not_square(dims: Seq<(u32, u32)>) -> bool {
    exists|i: int| 0 <= i < dims.len() && (#[trigger] dims[i]).0 != dims[i].1
}

/// Some face of `dims` differs in width from the first.
pub open spec fn some_face_size_differs(dims: Seq<(u32, u32)>) -> bool {
    exists|i: int| 0 <= i < dims.len() && (#[trigger] dims[i]).0 != dims[0].0
}

/// The outcome of checking faces of the given widths and heights, in the
/// order +X, -X, +Y, -Y, +Z, -Z: the shared size of the faces, or the first
/// rule they break, the rules taken in the order of `CubemapError`.
pub open spec fn validation_spec(dims: Seq<(u32, u32)>) -> Result<u32, CubemapError> {
    if dims.len() != FACE_COUNT {
        Err(CubemapError::InvalidFaceCount)
    } else if some_face_not_square(dims) {
        Err(CubemapError::FaceNotSquare)
    } else if some_face_size_differs(dims) {
        Err(CubemapError::FaceSizeMismatch)
    } else if dims[0].0 < 2 {
        Err(CubemapError::DegenerateInput)
    } else {
        Ok(dims[0].0)
    }
}

/// Checks the widths and heights of a cubemap's faces and returns the size
/// they share.
pub fn validate_faces(dims: &[(u32, u32)]) -> (r: Result<u32, CubemapError>)
    ensures
        r == validation_spec(dims@),
{
    if dims.len() != FACE_COUNT {
        return Err(CubemapError::InvalidFaceCount);
    }
    let mut i: usize = 0;
    while i < dims.len()
        invariant
            0 <= i <= dims@.len(),
            dims@.len() == FACE_COUNT,
            forall|j: int| 0 <= j < i ==> (#[trigger] dims@[j]).0 == dims@[j].1,
        decreases dims@.len() - i,
    {
        if dims[i].0 != dims[i].1 {
            assert(some_face_not_square(dims@)) by {
                assert(dims@[i as int].0 != dims@[i as int].1);
            }
            return Err(CubemapError::FaceNotSquare);
        }
        i = i + 1;
    }
    let size = dims[0].0;
    let mut i: usize = 0;
    while i < dims.len()
        invariant
            0 <= i <= dims@.len(),
            dims@.len() == FACE_COUNT,
            size == dims@[0].0,
            !some_face_not_square(dims@),
            forall|j: int| 0 <= j < i ==> (#[trigger] dims@[j]).0 == size,
        decreases dims@.len() - i,
    {
        if dims[i].0 != size {
            assert(some_face_size_differs(dims@)) by {
                assert(dims@[i as int].0 != dims@[0].0);
            }
            return Err(CubemapError::FaceSizeMismatch);
        }
        i = i + 1;
    }
    if size < 2 {
        Err(CubemapError::DegenerateInput)
    } else {
        Ok(size)
    }
}

/// Faces are counted before anything else: five or seven faces are refused
/// as a wrong count whatever their sizes. With six faces, one that is not
/// square is refused as such, whatever the others are.
pub proof fn lemma_input_validation(dims: Seq<(u32, u32)>, i: int)
    ensures
        dims.len() == 5 || dims.len() == 7 ==> validation_spec(dims) == Err::<
            u32,
            CubemapError,
        >(CubemapError::InvalidFaceCount),
        dims.len() == 6 && 0 <= i < 6 && dims[i].0 != dims[i].1 ==> validation_spec(dims) == Err::<
            u32,
            CubemapError,
        >(CubemapError::FaceNotSquare),
{
    if dims.len() == 6 && 0 <= i < 6 && dims[i].0 != dims[i].1 {
        assert(some_face_not_square(dims));
    }
}

/// A cubemap that passes the checks has six square faces of one size, at
/// least two texels a side, and that size is what is returned.
pub proof fn lemma_validated_faces(dims: Seq<(u32, u32)>)
    requires
        validation_spec(dims) is Ok,
    ensures
        dims.len() == 6,
        2 <= validation_spec(dims)->Ok_0,
        forall|i: int|
            0 <= i < 6 ==> (#[trigger] dims[i]).0 == validation_spec(dims)->Ok_0 && dims[i].1
                == validation_spec(dims)->Ok_0,
{
    assert forall|i: int| 0 <= i < 6 implies (#[trigger] dims[i]).0 == validation_spec(dims)->Ok_0
        && dims[i].1 == validation_spec(dims)->Ok_0 by {
        assert(!(0 <= i < dims.len() && dims[i].0 != dims[0].0));
        assert(!(0 <= i < dims.len() && dims[i].0 != dims[i].1));
    }
}

} // verus!
