use euleretal::layers::{acceleration_field, coordinates};

#[test]
fn acceleration_field_lattice_is_ordered_by_x_then_y() {
    let points = acceleration_field::render(-1, 1, 0, 1);
    assert_eq!(points, vec![(-1, 0), (-1, 1), (0, 0), (0, 1), (1, 0), (1, 1)]);
}

#[test]
fn acceleration_field_single_point() {
    assert_eq!(acceleration_field::render(3, 3, -2, -2), vec![(3, -2)]);
}

#[test]
fn acceleration_field_empty_ranges() {
    assert!(acceleration_field::render(2, 1, 0, 5).is_empty());
    assert!(acceleration_field::render(0, 5, 2, 1).is_empty());
}

#[test]
fn acceleration_field_at_the_edge_of_i32() {
    let points = acceleration_field::render(i32::MAX - 1, i32::MAX, i32::MIN, i32::MIN);
    assert_eq!(points, vec![(i32::MAX - 1, i32::MIN), (i32::MAX, i32::MIN)]);
}

#[test]
fn coordinate_ticks_cover_both_ranges() {
    let (xs, ys) = coordinates::render(-2, 2, 0, 1);
    assert_eq!(xs, vec![-2, -1, 0, 1, 2]);
    assert_eq!(ys, vec![0, 1]);
}

#[test]
fn integer_range_edges() {
    assert!(coordinates::integer_range(1, 0).is_empty());
    assert_eq!(coordinates::integer_range(i32::MAX, i32::MAX), vec![i32::MAX]);
    assert_eq!(coordinates::integer_range(i32::MIN, i32::MIN + 1), vec![i32::MIN, i32::MIN + 1]);
}
