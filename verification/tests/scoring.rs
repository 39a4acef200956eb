use pong_core::ball::Ball;
use pong_core::point::{check_for_point, crossed_side, reset, score_point, serve};
use pong_core::geometry::{Position, WindowBounds};
use pong_core::score::{update_score_position, Score, Side, SCORE_OFFSET_FROM_TOP};
use pong_core::velocity::{invert, Velocity};

fn field() -> WindowBounds {
    WindowBounds { half_width: 400_000, half_height: 300_000 }
}

fn ball(x: i64, y: i64, half_extent: u32) -> Ball {
    Ball {
        position: Position { x, y },
        velocity: Velocity { x: 1, y: 1 },
        half_extent,
        wall_contact: false,
        paddle_contact: false,
    }
}

fn is_serve(v: &Velocity) -> bool {
    (v.x == 1 || v.x == -1) && (v.y == 1 || v.y == -1)
}

#[test]
fn the_ends_of_the_field_begin_at_the_boundary() {
    let bounds = field();
    assert_eq!(crossed_side(&ball(0, 0, 5_000), &bounds), None);
    assert_eq!(crossed_side(&ball(-394_999, 0, 5_000), &bounds), None);
    assert_eq!(crossed_side(&ball(-395_000, 0, 5_000), &bounds), Some(Side::Left));
    assert_eq!(crossed_side(&ball(-900_000, 0, 5_000), &bounds), Some(Side::Left));
    assert_eq!(crossed_side(&ball(394_999, 0, 5_000), &bounds), None);
    assert_eq!(crossed_side(&ball(395_000, 0, 5_000), &bounds), Some(Side::Right));
    assert_eq!(crossed_side(&ball(i64::MAX, 0, u32::MAX), &bounds), Some(Side::Right));
    assert_eq!(crossed_side(&ball(i64::MIN, 0, u32::MAX), &bounds), Some(Side::Left));
}

#[test]
fn a_ball_wider_than_the_field_leaves_on_the_left() {
    let bounds = field();
    assert_eq!(crossed_side(&ball(0, 0, 400_000), &bounds), Some(Side::Left));
    let mut b = ball(0, 0, 400_000);
    let mut score = Score { p1: 0, p2: 0 };
    score_point(&mut b, &mut score, &bounds, Velocity { x: 1, y: -1 });
    assert_eq!(score, Score { p1: 0, p2: 1 });
}

#[test]
fn left_exit_is_a_point_for_the_second_player() {
    let mut b = ball(-400_000, 123, 0);
    b.wall_contact = true;
    b.paddle_contact = true;
    let mut score = Score { p1: 3, p2: 4 };
    score_point(&mut b, &mut score, &field(), Velocity { x: -1, y: 1 });
    assert_eq!(score, Score { p1: 3, p2: 5 });
    assert_eq!(b.position, Position { x: 0, y: 0 });
    assert_eq!(b.velocity, Velocity { x: -1, y: 1 });
    assert!(b.wall_contact);
    assert!(b.paddle_contact);
    assert_eq!(b.half_extent, 0);
}

#[test]
fn right_exit_is_a_point_for_the_first_player() {
    let mut b = ball(400_000, -55, 0);
    let mut score = Score { p1: 3, p2: 4 };
    score_point(&mut b, &mut score, &field(), Velocity { x: 1, y: -1 });
    assert_eq!(score, Score { p1: 4, p2: 4 });
    assert_eq!(b.position, Position { x: 0, y: 0 });
    assert_eq!(b.velocity, Velocity { x: 1, y: -1 });
}

#[test]
fn inside_the_field_nothing_is_scored() {
    let mut b = ball(399_999, 0, 0);
    let mut score = Score { p1: 1, p2: 2 };
    score_point(&mut b, &mut score, &field(), Velocity { x: -1, y: -1 });
    assert_eq!(score, Score { p1: 1, p2: 2 });
    assert_eq!(b, ball(399_999, 0, 0));
}

#[test]
fn a_full_counter_stays_full() {
    let mut score = Score { p1: u32::MAX, p2: u32::MAX - 1 };
    score.award(Side::Right);
    assert_eq!(score, Score { p1: u32::MAX, p2: u32::MAX - 1 });
    score.award(Side::Left);
    assert_eq!(score, Score { p1: u32::MAX, p2: u32::MAX });
    score.award(Side::Left);
    assert_eq!(score, Score { p1: u32::MAX, p2: u32::MAX });
}

#[test]
fn award_counts_one_point() {
    let mut score = Score::default();
    assert_eq!(score, Score { p1: 0, p2: 0 });
    score.award(Side::Left);
    assert_eq!(score, Score { p1: 0, p2: 1 });
    score.award(Side::Right);
    score.award(Side::Right);
    assert_eq!(score, Score { p1: 2, p2: 1 });
}

#[test]
fn serve_puts_the_ball_at_the_centre() {
    let mut b = ball(77, -88, 9);
    b.wall_contact = true;
    serve(&mut b, Velocity { x: -1, y: -1 });
    assert_eq!(b.position, Position { x: 0, y: 0 });
    assert_eq!(b.velocity, Velocity { x: -1, y: -1 });
    assert_eq!(b.half_extent, 9);
    assert!(b.wall_contact);
    assert!(!b.paddle_contact);
}

#[test]
fn reset_centres_and_draws_a_serve() {
    let mut rng = rand::thread_rng();
    for _ in 0..64u32 {
        let mut position = Position { x: 400_000, y: -17 };
        let mut velocity = Velocity { x: 5, y: 0 };
        reset(&mut position, &mut velocity, &mut rng);
        assert_eq!(position, Position { x: 0, y: 0 });
        assert!(is_serve(&velocity));
    }
}

#[test]
fn check_for_point_scores_and_serves_at_random() {
    let mut rng = rand::thread_rng();
    for _ in 0..64u32 {
        let mut b = ball(-400_000, 40, 0);
        b.velocity = Velocity { x: 7, y: 9 };
        let mut score = Score { p1: 0, p2: 0 };
        check_for_point(&mut b, &mut score, &field(), &mut rng);
        assert_eq!(score, Score { p1: 0, p2: 1 });
        assert_eq!(b.position, Position { x: 0, y: 0 });
        assert!(is_serve(&b.velocity));
    }
    let mut b = ball(400_000, 40, 0);
    let mut score = Score { p1: 0, p2: 0 };
    check_for_point(&mut b, &mut score, &field(), &mut rng);
    assert_eq!(score, Score { p1: 1, p2: 0 });
    assert_eq!(b.position, Position { x: 0, y: 0 });
}

#[test]
fn check_for_point_leaves_a_ball_in_the_field_alone() {
    let mut rng = rand::thread_rng();
    let mut b = ball(10, 40, 0);
    b.velocity = Velocity { x: 7, y: 9 };
    let mut score = Score { p1: 2, p2: 1 };
    check_for_point(&mut b, &mut score, &field(), &mut rng);
    assert_eq!(score, Score { p1: 2, p2: 1 });
    assert_eq!(b.position, Position { x: 10, y: 40 });
    assert_eq!(b.velocity, Velocity { x: 7, y: 9 });
}

#[test]
fn every_serve_comes_up() {
    let mut rng = rand::thread_rng();
    let mut seen = [false; 4];
    for _ in 0..4096u32 {
        let v = Velocity::from_random(&mut rng);
        assert!(is_serve(&v));
        let index: usize = (if v.x == 1 { 1 } else { 0 }) + (if v.y == 1 { 2 } else { 0 });
        seen[index] = true;
    }
    assert_eq!(seen, [true; 4]);
}

#[test]
fn regen_replaces_the_velocity_by_a_serve() {
    let mut rng = rand::thread_rng();
    let mut positive: u32 = 0;
    let mut negative: u32 = 0;
    for _ in 0..4096u32 {
        let mut v = Velocity { x: 0, y: 100 };
        v.regen(&mut rng);
        assert!(is_serve(&v));
        if v.x == 1 {
            positive += 1;
        } else {
            negative += 1;
        }
    }
    assert!(positive > 0);
    assert!(negative > 0);
}

#[test]
fn gen_direction_is_plus_or_minus_one() {
    let mut rng = rand::thread_rng();
    let mut plus = false;
    let mut minus = false;
    for _ in 0..4096u32 {
        let d: i32 = Velocity::gen_direction(&mut rng);
        assert!(d == 1 || d == -1);
        plus = plus || d == 1;
        minus = minus || d == -1;
    }
    assert!(plus && minus);
}

#[test]
fn draws_stand_for_directions() {
    assert_eq!(Velocity::direction_from(true), 1);
    assert_eq!(Velocity::direction_from(false), -1);
    assert_eq!(Velocity::from_draws(true, true), Velocity { x: 1, y: 1 });
    assert_eq!(Velocity::from_draws(true, false), Velocity { x: 1, y: -1 });
    assert_eq!(Velocity::from_draws(false, true), Velocity { x: -1, y: 1 });
    assert_eq!(Velocity::from_draws(false, false), Velocity { x: -1, y: -1 });
}

#[test]
fn invert_turns_the_sign_round() {
    assert_eq!(invert(1), -1);
    assert_eq!(invert(-1), 1);
    assert_eq!(invert(0), 0);
    assert_eq!(invert(i32::MAX), -i32::MAX);
    assert_eq!(invert(-i32::MAX), i32::MAX);
    assert_eq!(invert(i32::MIN), i32::MAX);
    assert_eq!(invert(invert(12345)), 12345);
}

#[test]
fn score_displays_show_their_player() {
    let score = Score { p1: 7, p2: 11 };
    assert_eq!(score.update_score_text(0), Some(7));
    assert_eq!(score.update_score_text(1), Some(11));
    assert_eq!(score.update_score_text(2), None);
    assert_eq!(score.update_score_text(255), None);
}

#[test]
fn score_displays_stand_a_quarter_from_the_centre() {
    let bounds = WindowBounds { half_width: 400_000, half_height: 300_000 };
    assert_eq!(SCORE_OFFSET_FROM_TOP, 125_000);
    assert_eq!(update_score_position(0, &bounds), Position { x: 200_000, y: 175_000 });
    assert_eq!(update_score_position(1, &bounds), Position { x: -200_000, y: 175_000 });
    assert_eq!(update_score_position(2, &bounds), Position { x: 200_000, y: 175_000 });
    let small = WindowBounds { half_width: 3, half_height: 0 };
    assert_eq!(update_score_position(1, &small), Position { x: -1, y: -125_000 });
    let large = WindowBounds { half_width: u32::MAX, half_height: u32::MAX };
    assert_eq!(
        update_score_position(1, &large),
        Position { x: -2_147_483_647, y: 4_294_842_295 }
    );
}
