use std::f64::consts::PI;

use cubemap_spherical_harmonics::face::CubeFace;
use cubemap_spherical_harmonics::harmonics::band_term;
use cubemap_spherical_harmonics::sample::texel_sample;
use cubemap_spherical_harmonics::validate::validate_faces;

fn area_element(x: f64, y: f64) -> f64 {
    (x * y).atan2((x * x + y * y + 1.0).sqrt())
}

/// Evaluates the projection of six faces of RGB texels (row by row) in f64.
fn project(faces: &[Vec<[f64; 3]>], size: u32) -> [[f64; 3]; 9] {
    let dims: Vec<(u32, u32)> = faces.iter().map(|_| (size, size)).collect();
    assert_eq!(validate_faces(&dims), Ok(size));
    let sizef = size as f64;
    let mut sh = [[0.0f64; 3]; 9];
    let mut weight_accum = 0.0f64;
    for (idx, face) in faces.iter().enumerate() {
        let f = CubeFace::from_index(idx).unwrap();
        for y in 0..size {
            for x in 0..size {
                let s = texel_sample(f, x, y, size);
                let len = (s.length_sq as f64).sqrt();
                let weight: f64 = s
                    .footprint
                    .iter()
                    .map(|c| c.sign as f64 * area_element(c.u as f64 / sizef, c.v as f64 / sizef))
                    .sum();
                let color = face[(y * size + x) as usize];
                for (i, coeff) in sh.iter_mut().enumerate() {
                    let t = band_term(i);
                    let basis = s.numerators[i] as f64 / len.powi(t.degree as i32);
                    let k = weight * t.weight_num as f64 / t.weight_den as f64 * basis;
                    for ch in 0..3 {
                        coeff[ch] += color[ch] * k;
                    }
                }
                weight_accum += weight * 3.0;
            }
        }
    }
    for coeff in sh.iter_mut() {
        for c in coeff.iter_mut() {
            *c *= 4.0 * PI / weight_accum;
        }
    }
    sh
}

fn constant_face(size: u32, color: [f64; 3]) -> Vec<[f64; 3]> {
    vec![color; (size * size) as usize]
}

#[test]
fn texel_solid_angles_cover_the_sphere() {
    let size: u32 = 16;
    let sizef = size as f64;
    let mut total = 0.0;
    for f in 0..6 {
        let face = CubeFace::from_index(f).unwrap();
        for y in 0..size {
            for x in 0..size {
                let s = texel_sample(face, x, y, size);
                let w: f64 = s
                    .footprint
                    .iter()
                    .map(|c| c.sign as f64 * area_element(c.u as f64 / sizef, c.v as f64 / sizef))
                    .sum();
                assert!(w > 0.0);
                total += w;
            }
        }
    }
    assert!((total - 4.0 * PI).abs() < 1e-9);
}

#[test]
fn uniform_white_projects_onto_band_zero() {
    let size: u32 = 16;
    let faces: Vec<Vec<[f64; 3]>> = (0..6).map(|_| constant_face(size, [1.0; 3])).collect();
    let sh = project(&faces, size);
    let expected = 16.0 * PI / 51.0;
    for ch in 0..3 {
        assert!((sh[0][ch] - expected).abs() < 1e-9);
        for coeff in sh.iter().skip(1) {
            assert!(coeff[ch].abs() < 1e-9);
        }
    }
}

#[test]
fn symmetric_along_z_has_no_z_term() {
    let size: u32 = 8;
    let gradient = |mirror: bool| -> Vec<[f64; 3]> {
        let mut face = Vec::new();
        for y in 0..size {
            for x in 0..size {
                let col = if mirror { size - 1 - x } else { x };
                face.push([col as f64 / 8.0, (y * y) as f64 / 64.0, 0.25 + (col * y) as f64 / 64.0]);
            }
        }
        face
    };
    let faces = vec![
        constant_face(size, [1.0, 0.5, 0.25]),
        constant_face(size, [0.2, 0.1, 0.05]),
        constant_face(size, [0.3, 0.3, 0.3]),
        constant_face(size, [0.6, 0.6, 0.6]),
        gradient(false),
        gradient(true),
    ];
    let sh = project(&faces, size);
    for ch in 0..3 {
        assert!(sh[2][ch].abs() < 1e-9);
        assert!(sh[5][ch].abs() < 1e-9);
        assert!(sh[7][ch].abs() < 1e-9);
    }
    // Not symmetric along x or y.
    assert!(sh[3][0].abs() > 0.01);
    assert!(sh[1][0].abs() > 0.01);
}
