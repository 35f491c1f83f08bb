use partmesh::alteration::Alteration;
use partmesh::angle::{Angle, Rotation};
use partmesh::attribute::{Attribute, AttributeItem};
use partmesh::errors::Error;
use partmesh::geometry::Geometry;
use partmesh::matrix::MatrixType;
use partmesh::scalar::Scalar;
use partmesh::vector::Vector;

fn s(v: f64) -> Scalar {
    Scalar::from_bits(v.to_bits())
}

fn f(sc: Scalar) -> f64 {
    f64::from_bits(sc.bits())
}

fn v3(x: f64, y: f64, z: f64) -> Vector {
    Vector::new(s(x), s(y), s(z))
}

fn angle(radians: f64) -> Angle {
    Angle::new(s(radians.sin()), s(radians.cos()))
}

/// The rotation for an item whose scaled direction is (x, y, z) radians.
fn rotation(x: f64, y: f64, z: f64) -> Rotation {
    Rotation::new(angle(x), angle(y), angle(z))
}

fn feq(a: f64, b: f64) -> bool {
    let diff = (a - b).abs();
    diff <= f64::EPSILON || diff <= f64::EPSILON * a.abs().max(b.abs())
}

fn cube() -> Vec<Vector> {
    vec![
        v3(1.0, 1.0, 1.0),
        v3(-1.0, 1.0, 1.0),
        v3(1.0, -1.0, 1.0),
        v3(-1.0, -1.0, 1.0),
        v3(1.0, 1.0, -1.0),
        v3(-1.0, 1.0, -1.0),
        v3(1.0, -1.0, -1.0),
        v3(-1.0, -1.0, -1.0),
    ]
}

fn assert_vertex(v: &Vector, x: f64, y: f64, z: f64) {
    assert!(feq(f(v.x), x), "x: got {}, expected {x}", f(v.x));
    assert!(feq(f(v.y), y), "y: got {}, expected {y}", f(v.y));
    assert!(feq(f(v.z), z), "z: got {}, expected {z}", f(v.z));
}

#[test]
fn test_alteration_translate() {
    let change = Alteration::new(MatrixType::Translate)
        .with_dimension(v3(1.0, 1.0, 1.0))
        .with_magnitude(s(2.0))
        .build()
        .unwrap();

    let mut data = vec![v3(1.0, 1.0, 1.0), v3(2.0, 1.0, 1.0), v3(3.0, 1.0, 1.0)];

    change.apply(&mut data);

    assert_vertex(&data[0], 3.0, 3.0, 3.0);
    assert_vertex(&data[1], 4.0, 3.0, 3.0);
    assert_vertex(&data[2], 5.0, 3.0, 3.0);
}

#[test]
fn test_alteration_scaling() {
    let change = Alteration::new(MatrixType::Scale)
        .with_dimension(v3(1.0, 1.0, 2.0))
        .with_magnitude(s(2.0))
        .build()
        .unwrap();

    let mut data = vec![v3(1.0, 1.0, 1.0), v3(2.0, 1.0, 1.0), v3(3.0, 1.0, 1.0)];

    change.apply(&mut data);

    assert_vertex(&data[0], 2.0, 2.0, 4.0);
    assert_vertex(&data[1], 4.0, 2.0, 4.0);
    assert_vertex(&data[2], 6.0, 2.0, 4.0);
}

#[test]
fn test_alteration_rotation() {
    let change = Alteration::new(MatrixType::Rotate)
        .with_dimension(v3(1.0, 1.0, 1.0))
        .with_magnitude(s(1.0))
        .build()
        .unwrap();

    let mut data = vec![v3(1.0, 2.0, 3.0)];

    // the sines and cosines of the scaled direction (1, 1, 1) radians
    change.apply_rotated(&rotation(1.0, 1.0, 1.0), &mut data);

    assert_vertex(&data[0], 1.9070421093244363, -1.134517035937589, 3.0126502432958917);
}

#[test]
fn test_attributeitem_scale_specific() {
    let mut vertices = cube();

    // scale in all directions
    let mut item = AttributeItem::scale_specific(v3(1.0, 1.0, 1.0), vec![0, 1, 2]);

    // scale by a factor of 2.1
    item.update_magnitude(s(2.1));

    item.apply(&mut vertices).unwrap();

    assert_vertex(&vertices[0], 2.1, 2.1, 2.1);
    assert_vertex(&vertices[1], -2.1, 2.1, 2.1);
    assert_vertex(&vertices[2], 2.1, -2.1, 2.1);
    assert_vertex(&vertices[3], -1.0, -1.0, 1.0);
}

#[test]
fn test_attributeitem_scale_range() {
    let mut vertices = cube();

    let mut item = AttributeItem::scale_range(v3(1.0, 1.0, 1.0), 0, 3);

    item.update_magnitude(s(2.1));
    item.apply(&mut vertices).unwrap();

    assert_vertex(&vertices[0], 2.1, 2.1, 2.1);
    assert_vertex(&vertices[1], -2.1, 2.1, 2.1);
    assert_vertex(&vertices[2], 2.1, -2.1, 2.1);
    assert_vertex(&vertices[3], -1.0, -1.0, 1.0);
}

#[test]
fn test_attributeitem_scale_all() {
    let mut vertices = cube();

    let mut item = AttributeItem::scale_all(v3(1.0, 1.0, 1.0));

    item.update_magnitude(s(2.1));
    item.apply(&mut vertices).unwrap();

    assert_vertex(&vertices[0], 2.1, 2.1, 2.1);
    assert_vertex(&vertices[1], -2.1, 2.1, 2.1);
    assert_vertex(&vertices[2], 2.1, -2.1, 2.1);
    assert_vertex(&vertices[3], -2.1, -2.1, 2.1);
    assert_vertex(&vertices[4], 2.1, 2.1, -2.1);
    assert_vertex(&vertices[5], -2.1, 2.1, -2.1);
    assert_vertex(&vertices[6], 2.1, -2.1, -2.1);
    assert_vertex(&vertices[7], -2.1, -2.1, -2.1);
}

#[test]
fn test_attributeitem_rotate_specific() {
    let mut vertices = cube();

    // rotate in all directions
    let mut item = AttributeItem::rotate_specific(v3(1.0, 1.0, 1.0), vec![0, 1, 2]);

    // rotate by 2.1 radians
    item.update_magnitude(s(2.1));
    item.apply_rotated(&rotation(2.1, 2.1, 2.1), &mut vertices).unwrap();

    assert_vertex(
        &vertices[0],
        1.5538668421853181,
        -0.7645101457817356,
        -0.03196988823591829,
    );
    assert_vertex(
        &vertices[1],
        1.0441276635260175,
        0.859417997123489,
        -1.0822190760100057,
    );
    assert_vertex(
        &vertices[2],
        0.6822910697717299,
        0.012157775290099204,
        1.591958254669306,
    );
}

#[test]
fn test_attributeitem_rotate_range() {
    let mut vertices = cube();

    let mut item = AttributeItem::rotate_range(v3(1.0, 1.0, 1.0), 0, 3);

    item.update_magnitude(s(2.1));
    item.apply_rotated(&rotation(2.1, 2.1, 2.1), &mut vertices).unwrap();

    assert_vertex(
        &vertices[0],
        1.5538668421853181,
        -0.7645101457817356,
        -0.03196988823591829,
    );
    assert_vertex(
        &vertices[1],
        1.0441276635260175,
        0.859417997123489,
        -1.0822190760100057,
    );
    assert_vertex(
        &vertices[2],
        0.6822910697717299,
        0.012157775290099204,
        1.591958254669306,
    );
}

#[test]
fn test_attributeitem_rotate_all() {
    let mut vertices = cube();

    let mut item = AttributeItem::rotate_all(v3(1.0, 1.0, 1.0));

    item.update_magnitude(s(2.1));
    item.apply_rotated(&rotation(2.1, 2.1, 2.1), &mut vertices).unwrap();

    assert_vertex(
        &vertices[0],
        1.5538668421853181,
        -0.7645101457817356,
        -0.03196988823591829,
    );
    assert_vertex(
        &vertices[1],
        1.0441276635260175,
        0.859417997123489,
        -1.0822190760100057,
    );
    assert_vertex(
        &vertices[2],
        0.6822910697717299,
        0.012157775290099204,
        1.591958254669306,
    );
    assert_vertex(
        &vertices[3],
        0.1725518911124293,
        1.6360859181953238,
        0.5417090668952189,
    );
    assert_vertex(
        &vertices[4],
        -0.1725518911124293,
        -1.6360859181953238,
        -0.5417090668952189,
    );
    assert_vertex(
        &vertices[5],
        -0.6822910697717299,
        -0.012157775290099204,
        -1.591958254669306,
    );
    assert_vertex(
        &vertices[6],
        -1.0441276635260175,
        -0.859417997123489,
        1.0822190760100057,
    );
    assert_vertex(
        &vertices[7],
        -1.5538668421853181,
        0.7645101457817356,
        0.03196988823591829,
    );
}

#[test]
fn test_attributeitem_translate_specific() {
    let mut vertices = cube();

    let mut item = AttributeItem::translate_specific(v3(1.0, 1.0, 1.0), vec![0, 1, 2]);

    // translate by 2.1
    item.update_magnitude(s(2.1));
    item.apply(&mut vertices).unwrap();

    assert_vertex(&vertices[0], 3.1, 3.1, 3.1);
    assert_vertex(&vertices[1], 1.1, 3.1, 3.1);
    assert_vertex(&vertices[2], 3.1, 1.1, 3.1);
    assert_vertex(&vertices[3], -1.0, -1.0, 1.0);
}

#[test]
fn test_attributeitem_translate_range() {
    let mut vertices = cube();

    let mut item = AttributeItem::translate_range(v3(1.0, 1.0, 1.0), 0, 3);

    item.update_magnitude(s(2.1));
    item.apply(&mut vertices).unwrap();

    assert_vertex(&vertices[0], 3.1, 3.1, 3.1);
    assert_vertex(&vertices[1], 1.1, 3.1, 3.1);
    assert_vertex(&vertices[2], 3.1, 1.1, 3.1);
    assert_vertex(&vertices[3], -1.0, -1.0, 1.0);
}

#[test]
fn test_attributeitem_translate_all() {
    let mut vertices = cube();

    let mut item = AttributeItem::translate_all(v3(1.0, 1.0, 1.0));

    item.update_magnitude(s(2.1));
    item.apply(&mut vertices).unwrap();

    assert_vertex(&vertices[0], 3.1, 3.1, 3.1);
    assert_vertex(&vertices[1], 1.1, 3.1, 3.1);
    assert_vertex(&vertices[2], 3.1, 1.1, 3.1);
    assert_vertex(&vertices[3], 1.1, 1.1, 3.1);
    assert_vertex(&vertices[4], 3.1, 3.1, 1.1);
    assert_vertex(&vertices[5], 1.1, 3.1, 1.1);
    assert_vertex(&vertices[6], 3.1, 1.1, 1.1);
    assert_vertex(&vertices[7], 1.1, 1.1, 1.1);
}

/// An 8-vertex box running along the x axis: the back end at x = 0, the
/// front end at x = 4.
fn board() -> Geometry {
    Geometry::new(
        vec![
            v3(0.0, 0.0, 0.0),
            v3(0.0, 1.0, 0.0),
            v3(0.0, 0.0, 1.0),
            v3(0.0, 1.0, 1.0),
            v3(4.0, 0.0, 0.0),
            v3(4.0, 1.0, 0.0),
            v3(4.0, 0.0, 1.0),
            v3(4.0, 1.0, 1.0),
        ],
        vec![],
    )
}

#[test]
fn test_attribute_transforms_geometry() {
    let mut geometry = board();

    let mut length = Attribute::new(
        "Length".into(),
        vec![
            // translate front end of the board frontwards
            AttributeItem::translate_specific(v3(1.0, 0.0, 0.0), vec![4, 5, 6, 7]),
            // translate back end of the board backwards
            AttributeItem::translate_specific(v3(-1.0, 0.0, 0.0), vec![0, 1, 2, 3]),
        ],
    )
    .unwrap();

    let before = f(length.distance(&geometry, 0, 1).unwrap());

    // add 2 meters to the front and back
    length.update(s(2.0));
    length.revise(&mut geometry).unwrap();

    let after = f(length.distance(&geometry, 0, 1).unwrap());
    assert_eq!(after - before, 4.0);
}

#[test]
fn attribute_with_zero_items_fails() {
    let r = Attribute::new("Length".into(), vec![]);
    assert_eq!(r.unwrap_err(), Error::EmptyAttribute);
}

#[test]
fn attribute_with_empty_name_fails() {
    let items = vec![AttributeItem::translate_all(v3(1.0, 0.0, 0.0))];
    let r = Attribute::new(String::new(), items);
    assert_eq!(r.unwrap_err(), Error::UnnamedAttribute);
}

#[test]
fn scale_alteration_with_zero_magnitude_fails() {
    let r = Alteration::new(MatrixType::Scale)
        .with_dimension(v3(1.0, 1.0, 1.0))
        .with_magnitude(s(0.0))
        .build();
    assert_eq!(r.unwrap_err(), Error::FixedAttribute);

    // a fresh scale alteration still carries magnitude zero
    let r = Alteration::new(MatrixType::Scale).with_dimension(v3(1.0, 1.0, 1.0)).build();
    assert_eq!(r.unwrap_err(), Error::FixedAttribute);
}

#[test]
fn attribute_with_zero_scale_item_fails() {
    let items = vec![AttributeItem::scale_all(v3(1.0, 1.0, 1.0))];
    let r = Attribute::new("Width".into(), items);
    assert_eq!(r.unwrap_err(), Error::FixedAttribute);
}

#[test]
fn update_broadcasts_one_magnitude_to_every_item() {
    let mut attribute = Attribute::new(
        "Length".into(),
        vec![
            AttributeItem::translate_specific(v3(1.0, 0.0, 0.0), vec![0]),
            AttributeItem::translate_specific(v3(0.0, 1.0, 0.0), vec![1]),
        ],
    )
    .unwrap();

    attribute.update(s(3.0));

    let mut vertices = vec![v3(0.0, 0.0, 0.0), v3(0.0, 0.0, 0.0)];
    attribute.apply(&mut vertices).unwrap();
    assert_vertex(&vertices[0], 3.0, 0.0, 0.0);
    assert_vertex(&vertices[1], 0.0, 3.0, 0.0);
}

#[test]
fn revise_is_relative_and_compounds() {
    let mut geometry = Geometry::new(vec![v3(1.0, 0.0, 0.0)], vec![]);
    let mut attribute = Attribute::new(
        "Push".into(),
        vec![AttributeItem::translate_all(v3(1.0, 0.0, 0.0))],
    )
    .unwrap();

    attribute.update(s(2.0));
    attribute.revise(&mut geometry).unwrap();
    assert_vertex(&geometry.vertices()[0], 3.0, 0.0, 0.0);

    // the same magnitude again moves the vertex again: no reset
    attribute.revise(&mut geometry).unwrap();
    assert_vertex(&geometry.vertices()[0], 5.0, 0.0, 0.0);
}

#[test]
fn revise_fails_atomically_when_an_item_is_out_of_range() {
    let mut geometry = Geometry::new(vec![v3(1.0, 0.0, 0.0)], vec![]);
    let mut attribute = Attribute::new(
        "Push".into(),
        vec![
            AttributeItem::translate_all(v3(1.0, 0.0, 0.0)),
            AttributeItem::translate_specific(v3(1.0, 0.0, 0.0), vec![5]),
        ],
    )
    .unwrap();

    attribute.update(s(2.0));
    assert_eq!(attribute.revise(&mut geometry).unwrap_err(), Error::OutOfRange);
    // the first item was not applied either: no partial overwrite
    assert_vertex(&geometry.vertices()[0], 1.0, 0.0, 0.0);
}

#[test]
fn revise_rotated_turns_the_selected_vertices() {
    let mut geometry = Geometry::new(vec![v3(1.0, 2.0, 3.0)], vec![]);
    let mut attribute = Attribute::new(
        "Twist".into(),
        vec![AttributeItem::rotate_all(v3(1.0, 1.0, 1.0))],
    )
    .unwrap();

    attribute.update(s(1.0));
    let rotations = vec![rotation(1.0, 1.0, 1.0)];
    attribute.revise_rotated(&mut geometry, &rotations).unwrap();

    assert_vertex(
        &geometry.vertices()[0],
        1.9070421093244363,
        -1.134517035937589,
        3.0126502432958917,
    );
}

#[test]
fn item_centroid_reads_the_geometry() {
    let geometry = board();
    let item = AttributeItem::translate_specific(v3(1.0, 0.0, 0.0), vec![4, 5, 6, 7]);
    let c = item.centroid(&geometry).unwrap();
    assert_vertex(&c, 4.0, 0.5, 0.5);
}
