use pong_core::geometry::{update_window_dimensions, Position, Resize, WindowBounds};
use pong_core::paddle::{
    clamp_to_field, move_one, move_paddle, paddle_travel, stop_reached, update_to_screensize, Keys,
    Paddle, PaddleDimensions, Stop, PADDLE_HEIGHT, PADDLE_OFFSET_FROM_WALL,
    PADDLE_SPEED_DENOMINATOR, PADDLE_SPEED_NUMERATOR, PADDLE_WIDTH,
};

fn field() -> WindowBounds {
    WindowBounds { half_width: 400_000, half_height: 300_000 }
}

fn no_keys() -> Keys {
    Keys {
        player_one_up: false,
        player_one_down: false,
        player_two_up: false,
        player_two_down: false,
    }
}

fn paddle(player: u8, x: i64, y: i64) -> Paddle {
    Paddle { player, position: Position { x, y } }
}

#[test]
fn paddle_constants_have_their_values() {
    assert_eq!(PADDLE_WIDTH, 20_000);
    assert_eq!(PADDLE_HEIGHT, 160_000);
    assert_eq!(PADDLE_OFFSET_FROM_WALL, 50_000);
    assert_eq!(PADDLE_SPEED_NUMERATOR, 3);
    assert_eq!(PADDLE_SPEED_DENOMINATOR, 4);
    assert_eq!(PaddleDimensions::default(), PaddleDimensions { width: 20_000, height: 160_000 });
}

#[test]
fn paddle_above_the_window_is_stopped_at_the_top() {
    assert_eq!(clamp_to_field(400_000, 80_000, 300_000), 220_000);
    let mut paddles = vec![paddle(0, 0, 400_000)];
    move_paddle(&mut paddles, &no_keys(), 16_667, &field());
    assert_eq!(paddles[0].position.y, 220_000);
}

#[test]
fn paddle_below_the_window_is_stopped_at_the_bottom() {
    assert_eq!(clamp_to_field(-400_000, 80_000, 300_000), -220_000);
    let mut paddles = vec![paddle(1, 0, -400_000)];
    move_paddle(&mut paddles, &no_keys(), 16_667, &field());
    assert_eq!(paddles[0].position.y, -220_000);
}

#[test]
fn paddle_inside_the_window_stays() {
    assert_eq!(clamp_to_field(0, 80_000, 300_000), 0);
    assert_eq!(clamp_to_field(220_000, 80_000, 300_000), 220_000);
    assert_eq!(clamp_to_field(220_001, 80_000, 300_000), 220_000);
    assert_eq!(clamp_to_field(-220_000, 80_000, 300_000), -220_000);
    assert_eq!(clamp_to_field(-220_001, 80_000, 300_000), -220_000);
}

#[test]
fn paddle_taller_than_the_window_goes_by_the_top() {
    // reaches past both ends: the top is looked at first
    assert_eq!(clamp_to_field(0, 80_000, 50_000), -30_000);
    assert_eq!(clamp_to_field(-29_999, 80_000, 50_000), -30_000);
    // at rest against the top it reaches past the bottom alone
    assert_eq!(clamp_to_field(-30_000, 80_000, 50_000), 30_000);
    assert_eq!(clamp_to_field(30_000, 80_000, 50_000), -30_000);
}

#[test]
fn clamp_takes_the_extremes() {
    assert_eq!(clamp_to_field(i64::MAX, u32::MAX, u32::MAX), 0);
    assert_eq!(clamp_to_field(i64::MIN, u32::MAX, u32::MAX), 0);
    assert_eq!(clamp_to_field(i64::MAX, 0, u32::MAX), 4_294_967_295);
    assert_eq!(clamp_to_field(i64::MIN, 0, u32::MAX), -4_294_967_295);
    assert_eq!(clamp_to_field(i64::MAX, u32::MAX, 0), -4_294_967_295);
}

#[test]
fn travel_is_three_quarters_of_the_window_height_per_second() {
    assert_eq!(paddle_travel(300_000, 1_000_000), 450_000);
    assert_eq!(paddle_travel(300_000, 16_667), 7_500);
    assert_eq!(paddle_travel(300_000, 0), 0);
    assert_eq!(paddle_travel(0, 1_000_000), 0);
    assert_eq!(paddle_travel(1, 666_666), 0);
    assert_eq!(paddle_travel(1, 666_667), 1);
    // 2 * (2^32 - 1) * 3 * (2^32 - 1) / 4_000_000, rounded down
    assert_eq!(paddle_travel(u32::MAX, u32::MAX), 27_670_116_097_679);
}

#[test]
fn up_key_raises_the_paddle() {
    let keys = Keys { player_one_up: true, ..no_keys() };
    let moved = move_one(paddle(0, 350_000, 10_000), &keys, 100_000, &field());
    assert_eq!(moved, paddle(0, 350_000, 55_000));
}

#[test]
fn down_key_lowers_the_paddle() {
    let keys = Keys { player_one_down: true, ..no_keys() };
    let moved = move_one(paddle(0, 350_000, 10_000), &keys, 100_000, &field());
    assert_eq!(moved, paddle(0, 350_000, -35_000));
}

#[test]
fn both_keys_cancel() {
    let keys = Keys { player_one_up: true, player_one_down: true, ..no_keys() };
    let moved = move_one(paddle(0, 350_000, 10_000), &keys, 100_000, &field());
    assert_eq!(moved, paddle(0, 350_000, 10_000));
}

#[test]
fn each_player_has_keys_of_their_own() {
    let one_up = Keys { player_one_up: true, ..no_keys() };
    let two_down = Keys { player_two_down: true, ..no_keys() };
    let bounds = field();
    assert_eq!(move_one(paddle(1, -350_000, 0), &one_up, 100_000, &bounds), paddle(1, -350_000, 0));
    assert_eq!(
        move_one(paddle(1, -350_000, 0), &two_down, 100_000, &bounds),
        paddle(1, -350_000, -45_000)
    );
    assert_eq!(move_one(paddle(0, 350_000, 0), &two_down, 100_000, &bounds), paddle(0, 350_000, 0));
    // every player but the first goes by the second pair of keys
    assert_eq!(
        move_one(paddle(9, 0, 0), &two_down, 100_000, &bounds),
        paddle(9, 0, -45_000)
    );
}

#[test]
fn moving_paddle_is_stopped_at_the_edge() {
    let keys = Keys { player_one_up: true, player_two_down: true, ..no_keys() };
    let mut paddles = vec![paddle(0, 350_000, 200_000), paddle(1, -350_000, -219_000)];
    move_paddle(&mut paddles, &keys, 1_000_000, &field());
    assert_eq!(paddles, vec![paddle(0, 350_000, 220_000), paddle(1, -350_000, -220_000)]);
    move_paddle(&mut paddles, &keys, 1_000_000, &field());
    assert_eq!(paddles, vec![paddle(0, 350_000, 220_000), paddle(1, -350_000, -220_000)]);
}

#[test]
fn move_paddle_moves_every_paddle() {
    let keys = Keys { player_one_down: true, player_two_up: true, ..no_keys() };
    let mut paddles = vec![paddle(0, 1, 0), paddle(1, 2, 0), paddle(0, 3, 100_000), paddle(2, 4, 5)];
    move_paddle(&mut paddles, &keys, 100_000, &field());
    assert_eq!(
        paddles,
        vec![paddle(0, 1, -45_000), paddle(1, 2, 45_000), paddle(0, 3, 55_000), paddle(2, 4, 45_005)]
    );
    let mut none: Vec<Paddle> = Vec::new();
    move_paddle(&mut none, &keys, 100_000, &field());
    assert!(none.is_empty());
}

#[test]
fn movement_stops_at_the_ends_of_the_range() {
    let wide = WindowBounds { half_width: u32::MAX, half_height: u32::MAX };
    let up = Keys { player_one_up: true, ..no_keys() };
    let moved = move_one(paddle(0, 0, i64::MAX), &up, u32::MAX, &wide);
    assert_eq!(moved.position.y, 4_294_967_295 - 80_000);
    let down = Keys { player_one_down: true, ..no_keys() };
    let moved = move_one(paddle(0, 0, i64::MIN), &down, u32::MAX, &wide);
    assert_eq!(moved.position.y, 80_000 - 4_294_967_295);
}

#[test]
fn paddles_stand_at_their_sides() {
    let mut paddles = vec![paddle(0, 0, 7), paddle(1, 0, -7), paddle(5, 99, 0)];
    update_to_screensize(&mut paddles, &field());
    assert_eq!(paddles, vec![paddle(0, 350_000, 7), paddle(1, -350_000, -7), paddle(5, -350_000, 0)]);
    let narrow = WindowBounds { half_width: 10_000, half_height: 10_000 };
    update_to_screensize(&mut paddles, &narrow);
    assert_eq!(paddles, vec![paddle(0, -40_000, 7), paddle(1, 40_000, -7), paddle(5, 40_000, 0)]);
    let widest = WindowBounds { half_width: u32::MAX, half_height: 0 };
    update_to_screensize(&mut paddles, &widest);
    assert_eq!(paddles[0].position.x, 4_294_917_295);
    assert_eq!(paddles[1].position.x, -4_294_917_295);
}

#[test]
fn bounds_are_half_the_window() {
    assert_eq!(
        WindowBounds::from_size(800_000, 600_000),
        WindowBounds { half_width: 400_000, half_height: 300_000 }
    );
    assert_eq!(WindowBounds::from_size(5, 1), WindowBounds { half_width: 2, half_height: 0 });
    assert_eq!(WindowBounds::default(), WindowBounds { half_width: 0, half_height: 0 });
}

#[test]
fn the_last_resize_counts() {
    let mut bounds = field();
    let none: Vec<Resize> = Vec::new();
    update_window_dimensions(&mut bounds, &none);
    assert_eq!(bounds, field());
    let resizes = vec![
        Resize { width: 100_000, height: 200_000 },
        Resize { width: 1_280_000, height: 720_000 },
    ];
    update_window_dimensions(&mut bounds, &resizes);
    assert_eq!(bounds, WindowBounds { half_width: 640_000, half_height: 360_000 });
    let one = vec![Resize { width: 3, height: 9 }];
    update_window_dimensions(&mut bounds, &one);
    assert_eq!(bounds, WindowBounds { half_width: 1, half_height: 4 });
}

#[test]
fn a_paddle_carried_past_an_end_is_reported_as_stopped() {
    let bounds = field();
    let up = Keys { player_one_up: true, ..no_keys() };
    let down = Keys { player_one_down: true, ..no_keys() };
    // 45 pixels in this tick
    assert_eq!(stop_reached(paddle(0, 0, 175_000), &up, 100_000, &bounds), None);
    assert_eq!(stop_reached(paddle(0, 0, 175_001), &up, 100_000, &bounds), Some(Stop::Upper));
    assert_eq!(stop_reached(paddle(0, 0, -175_000), &down, 100_000, &bounds), None);
    assert_eq!(stop_reached(paddle(0, 0, -175_001), &down, 100_000, &bounds), Some(Stop::Lower));
    // held against the stop, the paddle is stopped tick after tick
    assert_eq!(stop_reached(paddle(0, 0, 220_000), &up, 100_000, &bounds), Some(Stop::Upper));
    // at rest at the stop it is not
    assert_eq!(stop_reached(paddle(0, 0, 220_000), &no_keys(), 100_000, &bounds), None);
    assert_eq!(stop_reached(paddle(0, 0, 220_000), &up, 0, &bounds), None);
    let both = Keys { player_one_up: true, player_one_down: true, ..no_keys() };
    assert_eq!(stop_reached(paddle(0, 0, 220_000), &both, 100_000, &bounds), None);
    // the other player's keys do not carry this paddle
    let other = Keys { player_two_up: true, ..no_keys() };
    assert_eq!(stop_reached(paddle(0, 0, 220_000), &other, 100_000, &bounds), None);
    assert_eq!(stop_reached(paddle(1, 0, 220_000), &other, 100_000, &bounds), Some(Stop::Upper));
}

#[test]
fn a_stop_is_reported_exactly_where_the_paddle_is_held_back() {
    let bounds = field();
    let keys = Keys { player_one_up: true, player_two_down: true, ..no_keys() };
    for player in [0u8, 1] {
        for y in [-400_000i64, -220_000, -175_001, -175_000, 0, 175_000, 175_001, 220_000, 400_000] {
            let start = paddle(player, 0, y);
            let free = move_one(start, &keys, 100_000, &WindowBounds { half_width: 0, half_height: 300_000 });
            let stop = stop_reached(start, &keys, 100_000, &bounds);
            let travel: i64 = if player == 0 { 45_000 } else { -45_000 };
            assert_eq!(stop.is_none(), free.position.y == y + travel);
        }
    }
}

#[test]
fn a_paddle_taller_than_the_window_meets_the_upper_stop_first() {
    let low = WindowBounds { half_width: 400_000, half_height: 50_000 };
    assert_eq!(stop_reached(paddle(0, 0, 0), &no_keys(), 0, &low), Some(Stop::Upper));
    assert_eq!(stop_reached(paddle(0, 0, -30_000), &no_keys(), 0, &low), Some(Stop::Lower));
}
