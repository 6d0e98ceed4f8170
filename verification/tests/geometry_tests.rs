use quad_demo::geometry::COORD_DENOM;
use quad_demo::geometry::quad_indices;
use quad_demo::geometry::quad_vertices;

#[test]
fn vertex_data_is_the_four_listed_corners() {
    let v = quad_vertices();
    assert_eq!(v, vec![5, 5, 0, 5, -5, 0, -5, -5, 0, -5, 5, 0]);
    let as_units: Vec<f32> = v.iter().map(|&c| c as f32 / COORD_DENOM as f32).collect();
    assert_eq!(
        as_units,
        vec![0.5, 0.5, 0.0, 0.5, -0.5, 0.0, -0.5, -0.5, 0.0, -0.5, 0.5, 0.0]
    );
}

#[test]
fn index_data_is_two_triangles() {
    assert_eq!(quad_indices(), vec![0, 1, 3, 1, 2, 3]);
}

#[test]
fn triangles_cover_the_unit_square_exactly() {
    let v = quad_vertices();
    let i = quad_indices();
    let corner = |k: u32| -> (f32, f32) {
        let base = 3 * k as usize;
        (
            v[base] as f32 / COORD_DENOM as f32,
            v[base + 1] as f32 / COORD_DENOM as f32,
        )
    };
    let tri_area = |a: (f32, f32), b: (f32, f32), c: (f32, f32)| -> f32 {
        (((b.0 - a.0) * (c.1 - a.1) - (c.0 - a.0) * (b.1 - a.1)) / 2.0).abs()
    };
    let first = tri_area(corner(i[0]), corner(i[1]), corner(i[2]));
    let second = tri_area(corner(i[3]), corner(i[4]), corner(i[5]));
    assert!((first - 0.5).abs() < 1e-6);
    assert!((second - 0.5).abs() < 1e-6);
    assert!((first + second - 1.0).abs() < 1e-6);
    // The triangles share the diagonal between corners 1 and 3.
    assert_eq!(i[1], i[3]);
    assert_eq!(i[2], i[5]);
}
