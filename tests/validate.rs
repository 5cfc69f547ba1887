use cubemap_spherical_harmonics::validate::{validate_faces, CubemapError};

#[test]
fn six_square_faces_of_one_size() {
    assert_eq!(validate_faces(&[(4, 4); 6]), Ok(4));
    assert_eq!(validate_faces(&[(2, 2); 6]), Ok(2));
}

#[test]
fn wrong_face_counts() {
    assert_eq!(validate_faces(&[(4, 4); 5]), Err(CubemapError::InvalidFaceCount));
    assert_eq!(validate_faces(&[(4, 4); 7]), Err(CubemapError::InvalidFaceCount));
    assert_eq!(validate_faces(&[]), Err(CubemapError::InvalidFaceCount));
}

#[test]
fn one_face_not_square() {
    let mut dims = [(4, 4); 6];
    dims[3] = (4, 5);
    assert_eq!(validate_faces(&dims), Err(CubemapError::FaceNotSquare));
    // Squareness is checked on every face before sizes are compared.
    dims[1] = (8, 8);
    assert_eq!(validate_faces(&dims), Err(CubemapError::FaceNotSquare));
}

#[test]
fn faces_of_different_sizes() {
    let mut dims = [(4, 4); 6];
    dims[5] = (8, 8);
    assert_eq!(validate_faces(&dims), Err(CubemapError::FaceSizeMismatch));
}

#[test]
fn faces_too_small() {
    assert_eq!(validate_faces(&[(1, 1); 6]), Err(CubemapError::DegenerateInput));
    assert_eq!(validate_faces(&[(0, 0); 6]), Err(CubemapError::DegenerateInput));
}
