use cubemap_spherical_harmonics::face::{get_cubemap_face_normals, CubeFace, IVec3};
use cubemap_spherical_harmonics::texel::{texel_direction, texel_footprint, Corner};

fn v(x: i64, y: i64, z: i64) -> IVec3 {
    IVec3::new(x, y, z)
}

fn corner(u: i64, v: i64, sign: i64) -> Corner {
    Corner { u, v, sign }
}

const FACES: [CubeFace; 6] = [
    CubeFace::PosX,
    CubeFace::NegX,
    CubeFace::PosY,
    CubeFace::NegY,
    CubeFace::PosZ,
    CubeFace::NegZ,
];

#[test]
fn face_table_matches_opengl_convention() {
    let expected = [
        [v(0, 0, -1), v(0, -1, 0), v(1, 0, 0)],
        [v(0, 0, 1), v(0, -1, 0), v(-1, 0, 0)],
        [v(1, 0, 0), v(0, 0, 1), v(0, 1, 0)],
        [v(1, 0, 0), v(0, 0, -1), v(0, -1, 0)],
        [v(1, 0, 0), v(0, -1, 0), v(0, 0, 1)],
        [v(-1, 0, 0), v(0, -1, 0), v(0, 0, -1)],
    ];
    assert_eq!(get_cubemap_face_normals(), expected);
    for (i, face) in FACES.iter().enumerate() {
        let b = face.basis();
        assert_eq!([b.u, b.v, b.n], expected[i]);
    }
}

#[test]
fn face_indices_round_trip() {
    for (i, face) in FACES.iter().enumerate() {
        assert_eq!(face.index(), i);
        assert_eq!(CubeFace::from_index(i), Some(*face));
    }
    assert_eq!(CubeFace::from_index(6), None);
    assert_eq!(CubeFace::PosX.opposite(), CubeFace::NegX);
    assert_eq!(CubeFace::NegY.opposite(), CubeFace::PosY);
    assert_eq!(CubeFace::PosZ.opposite(), CubeFace::NegZ);
}

#[test]
fn row_axis_cross_column_axis_is_normal() {
    for face in FACES.iter() {
        let b = face.basis();
        let (u, w) = (b.v, b.u);
        let c = v(u.y * w.z - u.z * w.y, u.z * w.x - u.x * w.z, u.x * w.y - u.y * w.x);
        assert_eq!(c, b.n);
    }
}

#[test]
fn directions_reach_face_corners() {
    // On a face of 4 texels the sampling coordinates are -3, -1, 1, 3 over 3.
    assert_eq!(texel_direction(CubeFace::PosX, 0, 0, 4), v(3, 3, 3));
    assert_eq!(texel_direction(CubeFace::PosX, 3, 3, 4), v(3, -3, -3));
    assert_eq!(texel_direction(CubeFace::PosX, 1, 2, 4), v(3, -1, 1));
    assert_eq!(texel_direction(CubeFace::PosY, 2, 0, 4), v(1, 3, -3));
    assert_eq!(texel_direction(CubeFace::NegZ, 1, 0, 2), v(-1, 1, -1));
    assert_eq!(texel_direction(CubeFace::NegY, 0, 1, 2), v(-1, -1, -1));
}

#[test]
fn footprint_corners_and_signs() {
    assert_eq!(
        texel_footprint(1, 2, 4),
        [corner(-2, 0, 1), corner(-2, 2, -1), corner(0, 0, -1), corner(0, 2, 1)]
    );
    assert_eq!(
        texel_footprint(0, 0, 1),
        [corner(-1, -1, 1), corner(-1, 1, -1), corner(1, -1, -1), corner(1, 1, 1)]
    );
}

#[test]
fn opposite_faces_sample_mirrored_directions() {
    let size = 5;
    for y in 0..size {
        for x in 0..size {
            let px = texel_direction(CubeFace::PosX, x, y, size);
            let nx = texel_direction(CubeFace::NegX, size - 1 - x, y, size);
            assert_eq!(nx, v(-px.x, px.y, px.z));
            let py = texel_direction(CubeFace::PosY, x, y, size);
            let ny = texel_direction(CubeFace::NegY, x, size - 1 - y, size);
            assert_eq!(ny, v(py.x, -py.y, py.z));
            let pz = texel_direction(CubeFace::PosZ, x, y, size);
            let nz = texel_direction(CubeFace::NegZ, size - 1 - x, y, size);
            assert_eq!(nz, v(pz.x, pz.y, -pz.z));
            let a = texel_footprint(x, y, size);
            let m = texel_footprint(size - 1 - x, y, size);
            for (k, j) in [(0usize, 2usize), (1, 3), (2, 0), (3, 1)] {
                assert_eq!(m[k], corner(-a[j].u, a[j].v, -a[j].sign));
            }
        }
    }
}
