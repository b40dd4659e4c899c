use breakout::constants::BALL_RADIUS;
use breakout::geometry::clamp_i64;
use breakout::geometry::collide_with_side;
use breakout::geometry::Aabb;
use breakout::geometry::Circle;
use breakout::geometry::Collision;
use breakout::geometry::Vec2;
use breakout::walls::WallLocation;

fn circle(x: i64, y: i64, radius: i64) -> Circle {
    Circle { center: Vec2 { x, y }, radius }
}

fn small_box() -> Aabb {
    Aabb { center: Vec2 { x: 0, y: 0 }, half: Vec2 { x: 2, y: 2 } }
}

#[test]
fn clamp_limits_to_interval() {
    assert_eq!(clamp_i64(5, 0, 10), 5);
    assert_eq!(clamp_i64(-5, 0, 10), 0);
    assert_eq!(clamp_i64(15, 0, 10), 10);
}

#[test]
fn no_intersection_gives_no_side() {
    assert_eq!(collide_with_side(circle(100, 0, 5), small_box()), None);
}

#[test]
fn larger_horizontal_offset_gives_left_or_right() {
    assert_eq!(collide_with_side(circle(-4, 1, 5), small_box()), Some(Collision::Left));
    assert_eq!(collide_with_side(circle(4, 1, 5), small_box()), Some(Collision::Right));
}

#[test]
fn larger_vertical_offset_gives_top_or_bottom() {
    assert_eq!(collide_with_side(circle(1, 4, 5), small_box()), Some(Collision::Top));
    assert_eq!(collide_with_side(circle(1, -4, 5), small_box()), Some(Collision::Bottom));
}

#[test]
fn equal_offsets_resolve_vertically() {
    assert_eq!(collide_with_side(circle(4, 4, 5), small_box()), Some(Collision::Top));
    assert_eq!(collide_with_side(circle(4, -4, 5), small_box()), Some(Collision::Bottom));
}

#[test]
fn center_inside_box_resolves_to_bottom() {
    assert_eq!(collide_with_side(circle(0, 0, 5), small_box()), Some(Collision::Bottom));
}

#[test]
fn touching_at_exact_radius_counts_as_hit() {
    assert_eq!(collide_with_side(circle(7, 0, 5), small_box()), Some(Collision::Right));
    assert_eq!(collide_with_side(circle(8, 0, 5), small_box()), None);
}

#[test]
fn ball_against_bottom_wall() {
    let ball = circle(0, -294_000_000, BALL_RADIUS);
    let hit = collide_with_side(ball, WallLocation::Bottom.aabb());
    assert_eq!(hit, Some(Collision::Top));
}

#[test]
fn wall_positions_match_playfield() {
    assert_eq!(WallLocation::Left.position(), Vec2 { x: -450_000_000, y: 0 });
    assert_eq!(WallLocation::Right.position(), Vec2 { x: 450_000_000, y: 0 });
    assert_eq!(WallLocation::Bottom.position(), Vec2 { x: 0, y: -300_000_000 });
    assert_eq!(WallLocation::Top.position(), Vec2 { x: 0, y: 300_000_000 });
}

#[test]
fn wall_sizes_span_the_playfield_plus_one_thickness() {
    assert_eq!(WallLocation::Left.size(), Vec2 { x: 10_000_000, y: 610_000_000 });
    assert_eq!(WallLocation::Right.size(), Vec2 { x: 10_000_000, y: 610_000_000 });
    assert_eq!(WallLocation::Bottom.size(), Vec2 { x: 910_000_000, y: 10_000_000 });
    assert_eq!(WallLocation::Top.size(), Vec2 { x: 910_000_000, y: 10_000_000 });
}

#[test]
fn wall_boxes_halve_the_sizes() {
    let b = WallLocation::Top.aabb();
    assert_eq!(b.center, Vec2 { x: 0, y: 300_000_000 });
    assert_eq!(b.half, Vec2 { x: 455_000_000, y: 5_000_000 });
    let l = WallLocation::Left.aabb();
    assert_eq!(l.center, Vec2 { x: -450_000_000, y: 0 });
    assert_eq!(l.half, Vec2 { x: 5_000_000, y: 305_000_000 });
}
