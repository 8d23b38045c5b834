use embedder::geometry::{input_region, merge_region, Point, Rectangle, RectangleKind, Size};

fn rect(x: i32, y: i32, w: i32, h: i32) -> Rectangle {
    Rectangle { loc: Point { x, y }, size: Size { w, h } }
}

#[test]
fn merge_is_the_bounding_box() {
    assert_eq!(rect(0, 0, 10, 10).merge(rect(5, -5, 10, 10)), rect(0, -5, 15, 15));
    assert_eq!(rect(5, -5, 10, 10).merge(rect(0, 0, 10, 10)), rect(0, -5, 15, 15));
    assert_eq!(rect(0, 0, 10, 10).merge(rect(2, 2, 3, 3)), rect(0, 0, 10, 10));
    assert_eq!(rect(0, 0, 1, 1).merge(rect(100, 200, 1, 1)), rect(0, 0, 101, 201));
    assert_eq!(rect(3, 4, 0, 0).merge(rect(3, 4, 0, 0)), rect(3, 4, 0, 0));
}

#[test]
fn merge_saturates_at_the_ends_of_the_range() {
    let far = rect(i32::MAX - 5, 0, 10, 1);
    assert_eq!(far.merge(rect(i32::MAX - 8, 0, 1, 1)), rect(i32::MAX - 8, 0, 8, 1));
    let wide = rect(i32::MIN, 0, 1, 1).merge(rect(i32::MAX - 1, 0, 1, 1));
    assert_eq!(wide, rect(i32::MIN, 0, i32::MAX, 1));
}

#[test]
fn merge_takes_the_corners_of_a_rectangle_of_negative_size() {
    assert_eq!(rect(10, 10, -4, -6).merge(rect(10, 10, 0, 0)), rect(6, 4, 4, 6));
}

#[test]
fn region_without_additions_is_none() {
    assert_eq!(merge_region(&vec![]), None);
    assert_eq!(merge_region(&vec![(RectangleKind::Subtract, rect(0, 0, 5, 5))]), None);
}

#[test]
fn region_merges_additions_in_order() {
    let rects = vec![
        (RectangleKind::Add, rect(10, 10, 10, 10)),
        (RectangleKind::Subtract, rect(-100, -100, 1, 1)),
        (RectangleKind::Add, rect(0, 15, 2, 30)),
    ];
    assert_eq!(merge_region(&rects), Some(rect(0, 10, 20, 35)));
    assert_eq!(
        merge_region(&vec![(RectangleKind::Add, rect(7, 8, 9, 10))]),
        Some(rect(7, 8, 9, 10))
    );
}

#[test]
fn input_region_defaults() {
    let size = Size { w: 200, h: 100 };
    assert_eq!(input_region(&None, Some(size)), rect(0, 0, 200, 100));
    assert_eq!(input_region(&None, None), rect(0, 0, 0, 0));
    assert_eq!(input_region(&Some(vec![]), Some(size)), rect(0, 0, 0, 0));
    assert_eq!(
        input_region(&Some(vec![(RectangleKind::Subtract, rect(1, 1, 1, 1))]), Some(size)),
        rect(0, 0, 0, 0)
    );
    assert_eq!(
        input_region(&Some(vec![(RectangleKind::Add, rect(1, 2, 3, 4))]), Some(size)),
        rect(1, 2, 3, 4)
    );
    assert_eq!(Rectangle::zero(), rect(0, 0, 0, 0));
    assert_eq!(Rectangle::from_size(size), rect(0, 0, 200, 100));
}
