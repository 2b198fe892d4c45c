use cursive_core::gradient::{fold_to_first_quadrant, sq_dist, sq_norm, Quadrant, Vec2};

#[test]
fn vec2_new_and_swap() {
    let v = Vec2::new(3, 9);
    assert_eq!(v.x, 3);
    assert_eq!(v.y, 9);
    let w = v.swap();
    assert_eq!(w.x, 9);
    assert_eq!(w.y, 3);
}

#[test]
fn first_quadrant_leaves_the_query_untouched() {
    let (pos, size) = fold_to_first_quadrant(Vec2::new(2, 3), Vec2::new(10, 20), Quadrant::First);
    assert_eq!(pos, Vec2::new(2, 3));
    assert_eq!(size, Vec2::new(10, 20));
}

#[test]
fn second_quadrant_swaps_and_reflects() {
    let (pos, size) = fold_to_first_quadrant(Vec2::new(2, 3), Vec2::new(10, 20), Quadrant::Second);
    assert_eq!(pos, Vec2::new(17, 2));
    assert_eq!(size, Vec2::new(20, 10));
}

#[test]
fn third_quadrant_reflects_through_the_center() {
    let (pos, size) = fold_to_first_quadrant(Vec2::new(2, 3), Vec2::new(10, 20), Quadrant::Third);
    assert_eq!(pos, Vec2::new(8, 17));
    assert_eq!(size, Vec2::new(10, 20));
}

#[test]
fn fourth_quadrant_mirrors_the_second() {
    let (pos, size) = fold_to_first_quadrant(Vec2::new(2, 3), Vec2::new(10, 20), Quadrant::Fourth);
    assert_eq!(pos, Vec2::new(3, 8));
    assert_eq!(size, Vec2::new(20, 10));
}

#[test]
fn folding_at_the_far_corner_stays_in_bounds() {
    let (pos, size) = fold_to_first_quadrant(Vec2::new(10, 20), Vec2::new(10, 20), Quadrant::Third);
    assert_eq!(pos, Vec2::new(0, 0));
    assert_eq!(size, Vec2::new(10, 20));
}

#[test]
fn two_quarter_turns_equal_a_half_turn() {
    let pos = Vec2::new(2, 3);
    let size = Vec2::new(10, 20);
    let (p1, s1) = fold_to_first_quadrant(pos, size, Quadrant::Second);
    let (p2, s2) = fold_to_first_quadrant(p1, s1, Quadrant::Second);
    let (p3, s3) = fold_to_first_quadrant(pos, size, Quadrant::Third);
    assert_eq!(p2, p3);
    assert_eq!(s2, s3);
}

#[test]
fn four_quarter_turns_return_the_query() {
    let pos = Vec2::new(2, 3);
    let size = Vec2::new(10, 20);
    let (mut p, mut s) = (pos, size);
    for _ in 0..4 {
        let folded = fold_to_first_quadrant(p, s, Quadrant::Second);
        p = folded.0;
        s = folded.1;
    }
    assert_eq!(p, pos);
    assert_eq!(s, size);
}

#[test]
fn a_quarter_turn_and_its_mirror_cancel() {
    let pos = Vec2::new(4, 1);
    let size = Vec2::new(7, 9);
    let (p1, s1) = fold_to_first_quadrant(pos, size, Quadrant::Second);
    let (p2, s2) = fold_to_first_quadrant(p1, s1, Quadrant::Fourth);
    assert_eq!(p2, pos);
    assert_eq!(s2, size);
}

#[test]
fn sq_norm_squares_and_sums() {
    assert_eq!(sq_norm(3, 4), 25);
    assert_eq!(sq_norm(-3, 4), 25);
    assert_eq!(sq_norm(0, 0), 0);
    assert_eq!(sq_norm(0x7fff_ffff, 0), 0x3fff_ffff_0000_0001);
}

#[test]
fn sq_dist_measures_squared_distance() {
    assert_eq!(sq_dist(5, 5, 2, 1), 25);
    assert_eq!(sq_dist(-2, 0, 1, 4), 25);
}

#[test]
fn sq_dist_at_the_center_is_zero() {
    assert_eq!(sq_dist(50, 50, 50, 50), 0);
}
