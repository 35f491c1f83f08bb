use partmesh::errors::Error;
use partmesh::matrix::Matrix;
use partmesh::scalar::Scalar;
use partmesh::selection::Selection;
use partmesh::vector::Vector;

fn s(v: f64) -> Scalar {
    Scalar::from_bits(v.to_bits())
}

fn f(sc: Scalar) -> f64 {
    f64::from_bits(sc.bits())
}

fn v3(x: f64, y: f64, z: f64) -> Vector {
    Vector::new(s(x), s(y), s(z))
}

fn sample() -> Vec<Vector> {
    vec![
        v3(0.0, 0.0, 0.0),
        v3(1.0, 0.0, 0.0),
        v3(2.0, 0.0, 0.0),
        v3(3.0, 0.0, 0.0),
        v3(4.0, 0.0, 0.0),
    ]
}

#[test]
fn take_then_give_restores_specific_selection() {
    let vertices = sample();
    let sel = Selection::specific(vec![3, 1, 3]);
    let taken = sel.take(&vertices).unwrap();
    assert_eq!(taken.len(), 3);
    assert_eq!(f(taken[0].x), 3.0);
    assert_eq!(f(taken[1].x), 1.0);
    assert_eq!(f(taken[2].x), 3.0);

    let mut dest = sample();
    sel.give(&taken, &mut dest).unwrap();
    assert_eq!(dest, sample());
}

#[test]
fn take_then_give_restores_range_selection() {
    let vertices = sample();
    let sel = Selection::range(1, 4);
    let taken = sel.take(&vertices).unwrap();
    assert_eq!(taken.len(), 3);
    assert_eq!(f(taken[0].x), 1.0);

    let mut dest = sample();
    sel.give(&taken, &mut dest).unwrap();
    assert_eq!(dest, sample());
}

#[test]
fn take_then_give_restores_all_selection() {
    let vertices = sample();
    let sel = Selection::all();
    let taken = sel.take(&vertices).unwrap();
    assert_eq!(taken.len(), 5);

    let mut dest = sample();
    sel.give(&taken, &mut dest).unwrap();
    assert_eq!(dest, sample());
}

#[test]
fn give_matches_positionally_in_selection_order() {
    let sel = Selection::specific(vec![4, 0]);
    let replacement = vec![v3(40.0, 0.0, 0.0), v3(10.0, 0.0, 0.0)];
    let mut dest = sample();
    sel.give(&replacement, &mut dest).unwrap();
    assert_eq!(f(dest[4].x), 40.0);
    assert_eq!(f(dest[0].x), 10.0);
    assert_eq!(f(dest[1].x), 1.0);
}

#[test]
fn take_fails_out_of_range() {
    let vertices = sample();
    assert_eq!(
        Selection::specific(vec![0, 9]).take(&vertices).unwrap_err(),
        Error::OutOfRange
    );
    assert_eq!(
        Selection::range(2, 9).take(&vertices).unwrap_err(),
        Error::OutOfRange
    );
    assert_eq!(
        Selection::range(3, 2).take(&vertices).unwrap_err(),
        Error::OutOfRange
    );
}

#[test]
fn give_fails_on_length_mismatch_and_leaves_dest_untouched() {
    let sel = Selection::range(1, 4);
    let short = vec![v3(9.0, 9.0, 9.0)];
    let mut dest = sample();
    assert_eq!(sel.give(&short, &mut dest).unwrap_err(), Error::LengthMismatch);
    assert_eq!(dest, sample());

    let sel = Selection::all();
    let long = vec![v3(9.0, 9.0, 9.0); 7];
    assert_eq!(sel.give(&long, &mut dest).unwrap_err(), Error::LengthMismatch);
    assert_eq!(dest, sample());
}

#[test]
fn give_fails_out_of_range_before_length() {
    let sel = Selection::specific(vec![9]);
    let source = vec![v3(9.0, 9.0, 9.0)];
    let mut dest = sample();
    assert_eq!(sel.give(&source, &mut dest).unwrap_err(), Error::OutOfRange);
    assert_eq!(dest, sample());
}

#[test]
fn transform_by_moves_only_selected_positions() {
    let m = Matrix::translate(s(10.0), s(0.0), s(0.0));
    let mut vertices = sample();
    Selection::specific(vec![0, 2]).transform_by(&m, &mut vertices).unwrap();
    assert_eq!(f(vertices[0].x), 10.0);
    assert_eq!(f(vertices[1].x), 1.0);
    assert_eq!(f(vertices[2].x), 12.0);
    assert_eq!(f(vertices[3].x), 3.0);
}

#[test]
fn transform_by_applies_duplicates_once_per_occurrence() {
    let m = Matrix::translate(s(10.0), s(0.0), s(0.0));
    let mut vertices = sample();
    Selection::specific(vec![1, 1]).transform_by(&m, &mut vertices).unwrap();
    assert_eq!(f(vertices[1].x), 21.0);
}

#[test]
fn transform_by_fails_atomically_out_of_range() {
    let m = Matrix::translate(s(10.0), s(0.0), s(0.0));
    let mut vertices = sample();
    let r = Selection::specific(vec![0, 9]).transform_by(&m, &mut vertices);
    assert_eq!(r.unwrap_err(), Error::OutOfRange);
    assert_eq!(vertices, sample());
}

#[test]
fn centroid_averages_the_selected_vertices() {
    let vertices = vec![v3(1.0, 2.0, 3.0), v3(3.0, 6.0, 9.0), v3(100.0, 100.0, 100.0)];
    let c = Selection::specific(vec![0, 1]).centroid(&vertices).unwrap();
    assert_eq!(f(c.x), 2.0);
    assert_eq!(f(c.y), 4.0);
    assert_eq!(f(c.z), 6.0);

    let c = Selection::all().centroid(&vertices).unwrap();
    assert_eq!(f(c.y), 36.0);

    let c = Selection::range(1, 2).centroid(&vertices).unwrap();
    assert_eq!(f(c.z), 9.0);
}

#[test]
fn centroid_of_an_empty_selection_fails() {
    let vertices = sample();
    assert_eq!(
        Selection::specific(vec![]).centroid(&vertices).unwrap_err(),
        Error::EmptyAttribute
    );
    assert_eq!(
        Selection::range(2, 2).centroid(&vertices).unwrap_err(),
        Error::EmptyAttribute
    );
    let empty: Vec<Vector> = vec![];
    assert_eq!(Selection::all().centroid(&empty).unwrap_err(), Error::EmptyAttribute);
}

#[test]
fn centroid_of_an_invalid_selection_fails() {
    let vertices = sample();
    assert_eq!(
        Selection::specific(vec![7]).centroid(&vertices).unwrap_err(),
        Error::OutOfRange
    );
}
