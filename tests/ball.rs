use bouncyquencer::ball::Ball;
use bouncyquencer::geometry::{pt2, Rgba, UNIT};

#[test]
fn new_ball() {
    let b = Ball::new();

    assert_eq!(b.get_radius(), UNIT);
    assert_eq!(b.get_color(), Rgba::new(255, 255, 255, 255));
    assert_eq!(b.get_position(), pt2(0, 0));
    assert_eq!(b.get_velocity(), pt2(0, 0));
}

#[test]
fn ball_random() {
    let b1 = Ball::random();
    let b2 = Ball::random();

    assert_ne!(b1.get_velocity(), b2.get_velocity());
}

#[test]
fn ball_velocity() {
    let mut b = Ball::new();
    assert_eq!(b.get_velocity(), pt2(0, 0));

    let v_new = pt2(500, 6900);
    b.set_velocity(v_new);
    assert_eq!(b.get_velocity(), v_new);
}

#[test]
fn ball_radius() {
    let mut b = Ball::new();
    assert_eq!(b.get_radius(), UNIT);

    b.set_radius(3500);
    assert_eq!(b.get_radius(), 3500);
}

#[test]
fn ball_position() {
    let mut b = Ball::new();
    assert_eq!(b.get_position(), pt2(0, 0));

    let p_new = pt2(0, 0);
    b.set_position(p_new);
    assert_eq!(b.get_position(), p_new);
}

#[test]
fn ball_color() {
    let mut b = Ball::new();
    assert_eq!(b.get_color(), Rgba::new(255, 255, 255, 255));

    let c_new = Rgba::new(0, 102, 153, 255);
    b.set_color(c_new);
    assert_eq!(b.get_color(), c_new);
}

#[test]
fn random_ball_stays_in_its_ranges() {
    for _ in 0..50 {
        let b = Ball::random();
        let v = b.get_velocity();
        assert!(-10 * UNIT <= v.x && v.x < 10 * UNIT);
        assert!(-10 * UNIT <= v.y && v.y < 10 * UNIT);
        assert!(UNIT <= b.get_radius() && b.get_radius() < 15 * UNIT);
    }
}

#[test]
fn randomise_velocity_keeps_the_rest() {
    let mut b = Ball::new();
    b.set_position(pt2(7, -8));
    b.randomise_velocity();
    let v = b.get_velocity();
    assert!(-10 * UNIT <= v.x && v.x < 10 * UNIT);
    assert!(-10 * UNIT <= v.y && v.y < 10 * UNIT);
    assert_eq!(b.get_position(), pt2(7, -8));
    assert_eq!(b.get_radius(), UNIT);
}

#[test]
fn advance_moves_by_velocity() {
    let mut b = Ball::new();
    b.set_position(pt2(10, 20));
    b.set_velocity(pt2(-3, 4));
    assert!(b.can_advance());
    b.advance();
    assert_eq!(b.get_position(), pt2(7, 24));
    assert_eq!(b.get_velocity(), pt2(-3, 4));
}

#[test]
fn advance_is_refused_past_the_coordinate_range() {
    let mut b = Ball::new();
    b.set_position(pt2(i32::MAX, 0));
    b.set_velocity(pt2(1, 0));
    assert!(!b.can_advance());
}
