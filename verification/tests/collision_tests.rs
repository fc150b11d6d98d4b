use playfield::box_collision;
use playfield::circular_collision::{
    check_collision1, check_collision2, distance_squared, Circle,
};
use playfield::per_pixel_collision;
use playfield::rect::Rect;

fn rect(x: i32, y: i32, w: i32, h: i32) -> Rect {
    Rect { x, y, w, h }
}

#[test]
fn boxes_that_overlap_collide() {
    let a = rect(0, 0, 20, 20);
    assert!(box_collision::check_collision(&a, &rect(10, 10, 20, 20)));
    assert!(box_collision::check_collision(&a, &rect(19, 19, 5, 5)));
    assert!(box_collision::check_collision(&a, &a));
    assert!(box_collision::check_collision(&rect(5, 5, 2, 2), &a));
}

#[test]
fn boxes_that_share_an_edge_do_not_collide() {
    let a = rect(0, 0, 20, 20);
    assert!(!box_collision::check_collision(&a, &rect(20, 0, 20, 20)));
    assert!(!box_collision::check_collision(&a, &rect(0, 20, 20, 20)));
    assert!(!box_collision::check_collision(&a, &rect(-20, 0, 20, 20)));
    assert!(!box_collision::check_collision(&a, &rect(0, -20, 20, 20)));
    assert!(!box_collision::check_collision(&a, &rect(20, 20, 20, 20)));
}

#[test]
fn boxes_apart_do_not_collide() {
    let a = rect(0, 0, 20, 20);
    assert!(!box_collision::check_collision(&a, &rect(300, 40, 40, 400)));
    assert!(!box_collision::check_collision(&a, &rect(0, 21, 20, 20)));
    assert!(!box_collision::check_collision(&a, &rect(10, 100, 20, 20)));
}

#[test]
fn box_collision_does_not_depend_on_the_order() {
    let a = rect(3, 4, 10, 12);
    let b = rect(12, 15, 7, 7);
    assert_eq!(box_collision::check_collision(&a, &b), box_collision::check_collision(&b, &a));
    assert!(box_collision::check_collision(&a, &b));
}

#[test]
fn box_collision_takes_the_largest_coordinates() {
    let a = rect(i32::MAX, i32::MAX, i32::MAX, i32::MAX);
    let b = rect(i32::MIN, i32::MIN, i32::MAX, i32::MAX);
    assert!(!box_collision::check_collision(&a, &b));
    assert!(box_collision::check_collision(&a, &a));
}

#[test]
fn lists_of_boxes_collide_where_one_pair_does() {
    let a = vec![rect(0, 0, 2, 2), rect(10, 10, 2, 2)];
    let b = vec![rect(50, 50, 2, 2), rect(11, 11, 5, 5)];
    assert!(per_pixel_collision::check_collision(&a, &b));
}

#[test]
fn lists_of_boxes_apart_do_not_collide() {
    let a = vec![rect(0, 0, 2, 2), rect(10, 10, 2, 2)];
    let b = vec![rect(50, 50, 2, 2), rect(12, 10, 5, 5)];
    assert!(!per_pixel_collision::check_collision(&a, &b));
}

#[test]
fn an_empty_list_collides_with_nothing() {
    let a: Vec<Rect> = Vec::new();
    let b = vec![rect(0, 0, 100, 100)];
    assert!(!per_pixel_collision::check_collision(&a, &b));
    assert!(!per_pixel_collision::check_collision(&b, &a));
    assert!(!per_pixel_collision::check_collision(&a, &a));
}

#[test]
fn circle_new_keeps_its_values() {
    let c = Circle::new(3, -4, 10);
    assert_eq!(c, Circle { x: 3, y: -4, r: 10 });
}

#[test]
fn distance_squared_is_the_sum_of_squares() {
    assert_eq!(distance_squared(0, 0, 3, 4), 25);
    assert_eq!(distance_squared(3, 4, 0, 0), 25);
    assert_eq!(distance_squared(-1, -1, 2, 3), 25);
    assert_eq!(distance_squared(7, 7, 7, 7), 0);
    assert_eq!(distance_squared(0, 0, 46340, 0), 2_147_395_600);
    assert_eq!(distance_squared(160, 120, 10, 10), 34600);
}

#[test]
fn circles_closer_than_their_radii_collide() {
    let a = Circle::new(0, 0, 10);
    assert!(check_collision2(&a, &Circle::new(19, 0, 10)));
    assert!(check_collision2(&a, &Circle::new(12, 15, 10)));
    assert!(check_collision2(&a, &a));
}

#[test]
fn circles_that_only_touch_do_not_collide() {
    let a = Circle::new(0, 0, 10);
    assert!(!check_collision2(&a, &Circle::new(20, 0, 10)));
    assert!(!check_collision2(&a, &Circle::new(12, 16, 10)));
    assert!(!check_collision2(&a, &Circle::new(0, -21, 10)));
}

#[test]
fn circle_collision_takes_the_largest_coordinates() {
    let a = Circle::new(i32::MAX, i32::MAX, i32::MAX);
    let b = Circle::new(i32::MIN, i32::MIN, i32::MAX);
    assert!(!check_collision2(&a, &b));
    assert!(check_collision2(&a, &Circle::new(i32::MAX, i32::MIN, i32::MAX)) == false);
    assert!(check_collision2(&a, &a));
}

#[test]
fn circle_left_of_a_wall() {
    let wall = rect(300, 40, 40, 400);
    assert!(!check_collision1(&Circle::new(290, 100, 10), &wall));
    assert!(check_collision1(&Circle::new(291, 100, 10), &wall));
}

#[test]
fn circle_right_of_a_wall() {
    let wall = rect(300, 40, 40, 400);
    assert!(!check_collision1(&Circle::new(350, 100, 10), &wall));
    assert!(check_collision1(&Circle::new(349, 100, 10), &wall));
}

#[test]
fn circle_above_and_below_a_wall() {
    let wall = rect(300, 40, 40, 400);
    assert!(!check_collision1(&Circle::new(320, 30, 10), &wall));
    assert!(check_collision1(&Circle::new(320, 31, 10), &wall));
    assert!(!check_collision1(&Circle::new(320, 450, 10), &wall));
    assert!(check_collision1(&Circle::new(320, 449, 10), &wall));
}

#[test]
fn circle_at_a_corner_of_a_wall() {
    let wall = rect(300, 40, 40, 400);
    // 6 left of and 8 above the corner: exactly one radius away
    assert!(!check_collision1(&Circle::new(294, 32, 10), &wall));
    assert!(check_collision1(&Circle::new(295, 32, 10), &wall));
    // the lower right corner lies at (340, 440)
    assert!(!check_collision1(&Circle::new(346, 448, 10), &wall));
    assert!(check_collision1(&Circle::new(346, 447, 10), &wall));
}

#[test]
fn circle_inside_a_wall_collides() {
    let wall = rect(300, 40, 40, 400);
    assert!(check_collision1(&Circle::new(320, 200, 10), &wall));
    assert!(check_collision1(&Circle::new(300, 40, 1), &wall));
}

#[test]
fn circle_without_radius_collides_with_nothing() {
    let wall = rect(300, 40, 40, 400);
    assert!(!check_collision1(&Circle::new(320, 200, 0), &wall));
    assert!(!check_collision2(&Circle::new(0, 0, 0), &Circle::new(0, 0, 0)));
}
