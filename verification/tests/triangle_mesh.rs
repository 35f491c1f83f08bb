use partmesh::errors::Error;
use partmesh::face::Face;
use partmesh::geometry::Geometry;
use partmesh::matrix::Matrix;
use partmesh::scalar::Scalar;
use partmesh::vector::Vector;

fn s(v: f64) -> Scalar {
    Scalar::from_bits(v.to_bits())
}

fn f(sc: Scalar) -> f64 {
    f64::from_bits(sc.bits())
}

fn v3(x: f64, y: f64, z: f64) -> Vector {
    Vector::new(s(x), s(y), s(z))
}

#[test]
fn test_face_normal() {
    let data = vec![v3(0.0, 0.0, 0.0), v3(1.0, 0.0, 0.0), v3(0.0, 1.0, 0.0)];

    let t = Face::new(1, 2, 3);
    let normal = t.normal(&data);

    assert_eq!(f(normal.x), 0.0);
    assert_eq!(f(normal.y), 0.0);
    assert_eq!(f(normal.z), 1.0);
}

#[test]
fn test_triangle_normal() {
    let data = vec![v3(0.0, 0.0, 0.0), v3(1.0, 0.0, 0.0), v3(0.0, 1.0, 0.0)];

    let face = Face::new(1, 2, 3);
    let t = face.triangle(&data);
    let normal = t.normal();

    assert_eq!(f(normal.x), 0.0);
    assert_eq!(f(normal.y), 0.0);
    assert_eq!(f(normal.z), 1.0);
}

#[test]
fn triangle_keeps_indices_and_copies_vertices() {
    let data = vec![v3(1.0, 1.0, 1.0), v3(2.0, 2.0, 2.0), v3(3.0, 3.0, 3.0)];
    let face = Face::new(1, 3, 2);
    let t = face.triangle(&data);
    assert_eq!(t.indices, (0, 2, 1));
    assert_eq!(f(t.p1.x), 1.0);
    assert_eq!(f(t.p2.x), 3.0);
    assert_eq!(f(t.p3.x), 2.0);

    let back = t.as_face();
    assert_eq!(back, face);
}

#[test]
fn geometry_make_groups_by_threes_and_drops_remainders() {
    let values = vec![s(0.0), s(0.1), s(0.2), s(1.0), s(1.1), s(1.2), s(9.0)];
    let indices = vec![1, 2, 3, 4];
    let g = Geometry::make(values, indices);

    assert_eq!(g.vertices().len(), 2);
    assert_eq!(f(g.vertices()[1].z), 1.2);
    assert_eq!(g.size(), 1);
    assert_eq!(g.faces[0], Face::new(1, 2, 3));
}

#[test]
fn geometry_validated_accepts_in_range_faces() {
    let g = Geometry::new(
        vec![v3(0.0, 0.0, 0.0), v3(1.0, 0.0, 0.0), v3(0.0, 1.0, 0.0)],
        vec![Face::new(1, 2, 3)],
    );
    let g = g.validated().unwrap();
    assert_eq!(g.size(), 1);
}

#[test]
fn geometry_validated_rejects_out_of_range_faces() {
    let g = Geometry::new(
        vec![v3(0.0, 0.0, 0.0), v3(1.0, 0.0, 0.0)],
        vec![Face::new(1, 2, 9)],
    );
    assert_eq!(g.validated().unwrap_err(), Error::InvalidStructure);
}

#[test]
fn geometry_get_materializes_the_face() {
    let g = Geometry::new(
        vec![v3(0.0, 0.0, 0.0), v3(1.0, 0.0, 0.0), v3(0.0, 1.0, 0.0)],
        vec![Face::new(1, 2, 3)],
    );
    let t = g.get(0);
    assert_eq!(t.indices, (0, 1, 2));
    assert_eq!(f(t.p2.x), 1.0);
}

#[test]
fn geometry_transform_touches_every_vertex_once() {
    let mut g = Geometry::new(
        vec![v3(1.0, 0.0, 0.0), v3(2.0, 0.0, 0.0), v3(3.0, 0.0, 0.0)],
        vec![Face::new(1, 2, 3), Face::new(1, 2, 3)],
    );
    let m = Matrix::translate(s(1.0), s(0.0), s(0.0));
    g.transform(&m);

    // shared vertices move once, even though two faces reference them
    assert_eq!(f(g.vertices()[0].x), 2.0);
    assert_eq!(f(g.vertices()[1].x), 3.0);
    assert_eq!(f(g.vertices()[2].x), 4.0);
}

#[test]
fn geometry_triangles_lists_faces_in_order() {
    let g = Geometry::new(
        vec![v3(0.0, 0.0, 0.0), v3(1.0, 0.0, 0.0), v3(0.0, 1.0, 0.0)],
        vec![Face::new(1, 2, 3), Face::new(3, 2, 1)],
    );
    let ts = g.triangles();
    assert_eq!(ts.len(), 2);
    assert_eq!(ts[0].indices, (0, 1, 2));
    assert_eq!(ts[1].indices, (2, 1, 0));
}
