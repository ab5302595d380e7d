use pong::assets::{Ball, MovementDirection, Paddle};
use pong::fixed::Fixed;
use pong::game::{decide_opponent, Game, Key, Owner};

fn units(n: i32) -> Fixed {
    Fixed::from_int(n)
}

fn micros(n: i64) -> Fixed {
    Fixed::from_micros(n)
}

/// A frame long enough to run a physics tick by itself.
fn frame() -> Fixed {
    micros(30_000)
}

fn player() -> Paddle {
    Paddle::new(units(47), units(10), 5)
}

fn enemy() -> Paddle {
    Paddle::new(units(3), units(14), 5)
}

/// A round in progress on the usual field, with the given ball.
fn playing(ball: Ball, score: i32, owner: Owner) -> Game {
    Game::from_parts(player(), enemy(), ball, 50, 55, false, score, owner)
}

/// A round that is over on the usual field.
fn round_over(score: i32, owner: Owner) -> Game {
    let ball = Ball::new(units(49), units(20), units(100), units(30));
    Game::from_parts(player(), enemy(), ball, 50, 55, true, score, owner)
}

#[test]
fn new_game_sets_the_field() {
    let game = Game::new_game(50, 55);
    assert_eq!(game.player(), Paddle::new(units(47), units(10), 5));
    assert_eq!(game.enemy(), Paddle::new(units(3), units(14), 5));
    assert_eq!(game.ball(), Ball::new(units(6), units(9), units(100), units(0)));
    assert_eq!(game.width(), 50);
    assert_eq!(game.height(), 55);
    assert!(!game.is_game_over());
    assert_eq!(game.waiting_time(), Fixed::zero());
    assert_eq!(game.score(), 0);
    assert_eq!(game.ball_owner(), Owner::Enemy);
    assert_eq!(game.active_key(), None);
    assert_eq!(game.get_dir(), None);
}

#[test]
fn new_game_equals_its_parts() {
    let ball = Ball::new(units(6), units(9), units(100), units(0));
    assert_eq!(
        Game::new_game(50, 55),
        Game::from_parts(player(), enemy(), ball, 50, 55, false, 0, Owner::Enemy)
    );
}

#[test]
fn new_game_places_the_player_by_the_width() {
    assert_eq!(Game::new_game(20, 30).player().get_position_x(), units(17));
    assert_eq!(Game::new_game(0, 0).player().get_position_x(), units(-3));
    assert_eq!(
        Game::new_game(i32::MIN, 0).player().get_position_x(),
        micros(-2_147_483_651_000_000)
    );
}

#[test]
fn arrow_keys_give_directions() {
    let mut game = Game::new_game(50, 55);
    game.key_pressed(Key::Up);
    assert_eq!(game.active_key(), Some(Key::Up));
    assert_eq!(game.get_dir(), Some(MovementDirection::Up));
    game.key_pressed(Key::Down);
    assert_eq!(game.get_dir(), Some(MovementDirection::Down));
    game.key_pressed(Key::Other);
    assert_eq!(game.active_key(), Some(Key::Other));
    assert_eq!(game.get_dir(), None);
    game.key_released();
    assert_eq!(game.active_key(), None);
    assert_eq!(game.get_dir(), None);
}

#[test]
fn keys_are_ignored_while_the_round_is_over() {
    let mut game = round_over(0, Owner::Player);
    game.key_pressed(Key::Up);
    assert_eq!(game.active_key(), None);
    assert_eq!(game, round_over(0, Owner::Player));
}

#[test]
fn a_key_held_when_the_round_ends_can_still_be_released() {
    let mut game = playing(Ball::new(units(49), units(20), units(100), units(0)), 0, Owner::Player);
    game.key_pressed(Key::Down);
    game.update(frame());
    assert!(game.is_game_over());
    assert_eq!(game.active_key(), Some(Key::Down));
    game.key_pressed(Key::Up);
    assert_eq!(game.active_key(), Some(Key::Down));
    game.key_released();
    assert_eq!(game.active_key(), None);
}

#[test]
fn restart_serves_the_ball() {
    let mut game = round_over(3, Owner::Player);
    game.restart();
    assert!(!game.is_game_over());
    assert_eq!(game.ball().get_velocity_x(), units(100));
    assert_eq!(game.ball().get_velocity_y(), units(0));
    assert_eq!(game.ball().get_position_x(), units(6));
    assert_eq!(game.ball().get_position_y(), units(27));
    assert_eq!(game.waiting_time(), Fixed::zero());
    assert_eq!(game.ball_owner(), Owner::Enemy);
    assert_eq!(game.player(), player());
    assert_eq!(game.enemy(), enemy());
}

#[test]
fn restart_serves_from_half_the_height_rounded_towards_zero() {
    let ball = Ball::new(units(0), units(0), units(0), units(0));
    let mut game = Game::from_parts(player(), enemy(), ball, 50, -7, true, 0, Owner::Player);
    game.restart();
    assert_eq!(game.ball().get_position_y(), units(-3));
    let mut game = Game::from_parts(player(), enemy(), ball, 50, 7, true, 0, Owner::Player);
    game.restart();
    assert_eq!(game.ball().get_position_y(), units(3));
}

#[test]
fn restart_penalty_after_the_opponents_touch() {
    let mut game = round_over(2, Owner::Enemy);
    game.restart();
    assert_eq!(game.score(), 1);
    assert_eq!(game.ball_owner(), Owner::Enemy);
}

#[test]
fn restart_keeps_the_score_after_the_players_touch() {
    let mut game = round_over(2, Owner::Player);
    game.restart();
    assert_eq!(game.score(), 2);
    assert_eq!(game.ball_owner(), Owner::Enemy);
}

#[test]
fn restart_takes_no_point_where_there_is_none() {
    let mut game = round_over(0, Owner::Enemy);
    game.restart();
    assert_eq!(game.score(), 0);
    let mut game = round_over(-4, Owner::Enemy);
    game.restart();
    assert_eq!(game.score(), -4);
}

#[test]
fn wall_save_serves_again_for_a_point() {
    let mut game = playing(Ball::new(micros(500_000), units(20), units(-100), units(30)), 4, Owner::Player);
    game.update_ball(frame());
    assert_eq!(game.ball().get_velocity_x(), units(100));
    assert_eq!(game.ball().get_velocity_y(), units(0));
    assert_eq!(game.ball().get_position_x(), units(6));
    assert_eq!(game.ball().get_position_y(), units(11));
    assert_eq!(game.score(), 5);
    assert!(!game.is_game_over());
    assert_eq!(game.ball_owner(), Owner::Player);
    assert_eq!(game.player(), player());
    assert_eq!(game.enemy(), enemy());
}

#[test]
fn wall_save_through_a_whole_frame() {
    let mut game = playing(Ball::new(micros(500_000), units(20), units(-100), units(0)), 0, Owner::Player);
    game.update(frame());
    assert_eq!(game.ball(), Ball::new(units(6), units(11), units(100), units(0)));
    assert_eq!(game.score(), 1);
    assert!(!game.is_game_over());
    assert_eq!(game.waiting_time(), Fixed::zero());
}

#[test]
fn wall_save_does_not_count_beyond_the_counter() {
    let mut game = playing(Ball::new(micros(500_000), units(20), units(-100), units(0)), i32::MAX, Owner::Player);
    game.update_ball(frame());
    assert_eq!(game.score(), i32::MAX);
    assert_eq!(game.ball(), Ball::new(units(6), units(11), units(100), units(0)));
}

#[test]
fn game_over_when_the_ball_passes_the_player() {
    let ball = Ball::new(units(49), units(20), units(100), units(30));
    let mut game = playing(ball, 4, Owner::Player);
    game.update_ball(frame());
    assert!(game.is_game_over());
    assert_eq!(game.score(), 4);
    assert_eq!(game.ball(), ball);
    assert_eq!(game.ball_owner(), Owner::Player);
}

#[test]
fn ball_exactly_on_the_side_line_stays_in_play() {
    // projected to x = 50, the width itself: not outside
    let mut game = playing(Ball::new(units(47), units(30), units(100), units(0)), 0, Owner::Enemy);
    game.update_ball(frame());
    assert!(!game.is_game_over());
    assert_eq!(game.ball().get_position_x(), units(50));
    // projected to x = 0: not outside either
    let mut game = playing(Ball::new(units(3), units(30), units(-100), units(0)), 0, Owner::Enemy);
    game.update_ball(frame());
    assert!(!game.is_game_over());
    assert_eq!(game.score(), 0);
    assert_eq!(game.ball().get_position_x(), units(0));
}

#[test]
fn paddle_bounce_at_the_centre() {
    // the player's paddle spans 10 to 15 and its centre is at 12
    let mut game = playing(Ball::new(units(44), units(12), units(100), units(0)), 0, Owner::Enemy);
    game.update_ball(frame());
    assert_eq!(game.ball().get_velocity_x(), units(-100));
    assert_eq!(game.ball().get_velocity_y(), units(0));
    assert_eq!(game.ball_owner(), Owner::Player);
    assert_eq!(game.ball().get_position_x(), units(47));
    assert_eq!(game.ball().get_position_y(), units(12));
    assert!(!game.is_game_over());
    assert_eq!(game.score(), 0);
}

#[test]
fn paddle_bounce_off_centre_adds_spin() {
    // two units below the centre: twenty times two, downwards
    let mut game = playing(Ball::new(units(44), units(14), units(100), units(0)), 0, Owner::Enemy);
    game.update_ball(frame());
    assert_eq!(game.ball().get_velocity_x(), units(-100));
    assert_eq!(game.ball().get_velocity_y(), units(40));
    // a unit and a half above the centre, with a vertical speed of its own
    let mut game = playing(Ball::new(units(44), micros(10_200_000), units(100), units(10)), 0, Owner::Enemy);
    game.update_ball(frame());
    // projected y = 10.2 + 0.3 = 10.5; centre - y = 1.5; spin = -30
    assert_eq!(game.ball().get_position_y(), micros(10_500_000));
    assert_eq!(game.ball().get_velocity_y(), units(-20));
    assert_eq!(game.ball_owner(), Owner::Player);
}

#[test]
fn paddle_bounce_needs_the_ball_level_with_the_paddle() {
    let ball = Ball::new(units(44), micros(15_000_001), units(100), units(0));
    let mut game = playing(ball, 0, Owner::Enemy);
    game.update_ball(frame());
    assert_eq!(game.ball().get_velocity_x(), units(100));
    assert_eq!(game.ball_owner(), Owner::Enemy);
    // both ends of the paddle count
    let mut game = playing(Ball::new(units(44), units(15), units(100), units(0)), 0, Owner::Enemy);
    game.update_ball(frame());
    assert_eq!(game.ball().get_velocity_x(), units(-100));
    assert_eq!(game.ball().get_velocity_y(), units(60));
    let mut game = playing(Ball::new(units(44), units(10), units(100), units(0)), 0, Owner::Enemy);
    game.update_ball(frame());
    assert_eq!(game.ball().get_velocity_x(), units(-100));
    assert_eq!(game.ball().get_velocity_y(), units(-40));
}

#[test]
fn paddle_bounce_needs_the_ball_near_the_paddle() {
    // projected to x = 45.999999: its whole part is 45, short of 46
    let mut game = playing(Ball::new(micros(42_999_999), units(12), units(100), units(0)), 0, Owner::Enemy);
    game.update_ball(frame());
    assert_eq!(game.ball().get_velocity_x(), units(100));
    assert_eq!(game.ball_owner(), Owner::Enemy);
    // projected to x = 46: reached
    let mut game = playing(Ball::new(units(43), units(12), units(100), units(0)), 0, Owner::Enemy);
    game.update_ball(frame());
    assert_eq!(game.ball().get_velocity_x(), units(-100));
    assert_eq!(game.ball_owner(), Owner::Player);
}

#[test]
fn opponent_bounce() {
    // the opponent's paddle spans 14 to 19 and its centre is at 16
    let mut game = playing(Ball::new(units(6), units(15), units(-100), units(0)), 0, Owner::Player);
    game.update_ball(frame());
    assert_eq!(game.ball().get_velocity_x(), units(100));
    assert_eq!(game.ball().get_velocity_y(), units(-20));
    assert_eq!(game.ball_owner(), Owner::Enemy);
    assert_eq!(game.ball().get_position_x(), units(3));
    assert_eq!(game.ball().get_position_y(), units(15));
    // projected to x = 4.000001: rounded up it is 5, beyond 4
    let mut game = playing(Ball::new(micros(7_000_001), units(15), units(-100), units(0)), 0, Owner::Player);
    game.update_ball(frame());
    assert_eq!(game.ball().get_velocity_x(), units(-100));
    assert_eq!(game.ball_owner(), Owner::Player);
}

#[test]
fn walls_reverse_the_vertical_velocity() {
    // upper wall: below 6 counts
    let mut game = playing(Ball::new(units(20), micros(6_500_000), units(0), units(-100)), 0, Owner::Player);
    game.update_ball(frame());
    assert_eq!(game.ball().get_velocity_y(), units(100));
    assert_eq!(game.ball().get_velocity_x(), units(0));
    assert_eq!(game.ball().get_position_y(), micros(3_500_000));
    // lower wall: above 54 counts
    let mut game = playing(Ball::new(units(20), units(53), units(0), units(100)), 0, Owner::Player);
    game.update_ball(frame());
    assert_eq!(game.ball().get_velocity_y(), units(-100));
    assert_eq!(game.ball().get_position_y(), units(56));
    // exactly on either line: no bounce
    let mut game = playing(Ball::new(units(20), units(51), units(0), units(100)), 0, Owner::Player);
    game.update_ball(frame());
    assert_eq!(game.ball().get_velocity_y(), units(100));
    assert_eq!(game.ball().get_position_y(), units(54));
    let mut game = playing(Ball::new(units(20), units(9), units(0), units(-100)), 0, Owner::Player);
    game.update_ball(frame());
    assert_eq!(game.ball().get_velocity_y(), units(-100));
    assert_eq!(game.ball().get_position_y(), units(6));
}

#[test]
fn ball_rests_while_the_round_is_over() {
    let ball = Ball::new(units(20), units(20), units(100), units(0));
    let mut game = Game::from_parts(player(), enemy(), ball, 50, 55, true, 1, Owner::Player);
    let before = game;
    game.update_ball(frame());
    assert_eq!(game, before);
}

#[test]
fn player_follows_the_held_key() {
    let mut game = Game::new_game(50, 55);
    game.key_pressed(Key::Up);
    game.update(frame());
    assert_eq!(game.player().get_position_y(), units(9));
    game.key_pressed(Key::Down);
    game.update(frame());
    game.update(frame());
    assert_eq!(game.player().get_position_y(), units(11));
    game.key_pressed(Key::Other);
    game.update(frame());
    assert_eq!(game.player().get_position_y(), units(11));
    game.key_released();
    game.update(frame());
    assert_eq!(game.player().get_position_y(), units(11));
}

#[test]
fn player_stays_inside_the_playfield() {
    let mut game = Game::new_game(50, 55);
    for _ in 0..20 {
        game.update_player(Some(MovementDirection::Up));
    }
    assert_eq!(game.player().get_position_y(), units(6));
    for _ in 0..60 {
        game.update_player(Some(MovementDirection::Down));
    }
    assert_eq!(game.player().get_position_y(), units(49));
    game.update_player(None);
    assert_eq!(game.player().get_position_y(), units(49));
}

#[test]
fn opponent_idles_when_the_ball_recedes() {
    // far above the paddle, far below it, and level with it
    for y in [0, 16, 50] {
        let mut game = playing(Ball::new(units(20), units(y), units(100), units(0)), 0, Owner::Enemy);
        game.update_ai(frame());
        assert_eq!(game.enemy(), enemy());
        assert_eq!(decide_opponent(units(100), units(y), &enemy()), None);
        assert_eq!(decide_opponent(micros(1), units(y), &enemy()), None);
        assert_eq!(decide_opponent(units(0), units(y), &enemy()), None);
    }
}

#[test]
fn opponent_follows_an_approaching_ball() {
    let mut game = playing(Ball::new(units(20), units(8), units(-100), units(0)), 0, Owner::Player);
    game.update_ai(frame());
    assert_eq!(game.enemy().get_position_y(), units(13));
    let mut game = playing(Ball::new(units(20), units(30), units(-100), units(0)), 0, Owner::Player);
    game.update_ai(frame());
    assert_eq!(game.enemy().get_position_y(), units(15));
    let mut game = playing(Ball::new(units(20), units(16), units(-100), units(0)), 0, Owner::Player);
    game.update_ai(frame());
    assert_eq!(game.enemy().get_position_y(), units(14));
}

#[test]
fn opponent_decides_by_the_projected_height() {
    let paddle = enemy();
    assert_eq!(decide_opponent(units(-1), micros(13_999_999), &paddle), Some(MovementDirection::Up));
    assert_eq!(decide_opponent(units(-1), units(14), &paddle), None);
    assert_eq!(decide_opponent(units(-1), units(19), &paddle), None);
    assert_eq!(decide_opponent(units(-1), micros(19_000_001), &paddle), Some(MovementDirection::Down));
    assert_eq!(decide_opponent(micros(-1), units(0), &paddle), Some(MovementDirection::Up));
    // the ball is at 13.5 and falls to 14.1 within the frame: level, so no move
    let mut game = playing(Ball::new(units(20), micros(13_500_000), units(-100), units(20)), 0, Owner::Player);
    game.update_ai(frame());
    assert_eq!(game.enemy().get_position_y(), units(14));
}

#[test]
fn opponent_waits_for_its_response_time() {
    let mut game = playing(Ball::new(units(20), units(8), units(-100), units(0)), 0, Owner::Player);
    game.update_ai(micros(4_000));
    assert_eq!(game.enemy().get_position_y(), units(14));
    game.update_ai(micros(4_000));
    assert_eq!(game.enemy().get_position_y(), units(14));
    // 0.012 s have gone by: it decides, and starts counting again
    game.update_ai(micros(4_000));
    assert_eq!(game.enemy().get_position_y(), units(13));
    game.update_ai(micros(9_999));
    assert_eq!(game.enemy().get_position_y(), units(13));
    // exactly the response time is enough
    game.update_ai(micros(1));
    assert_eq!(game.enemy().get_position_y(), units(12));
}

#[test]
fn frames_below_the_tick_length_only_gather_time() {
    let mut game = Game::new_game(50, 55);
    game.key_pressed(Key::Up);
    let start = game;
    game.update(micros(5_000));
    game.update(micros(5_000));
    game.update(micros(5_000));
    assert_eq!(game.waiting_time(), micros(15_000));
    assert_eq!(game.ball(), start.ball());
    assert_eq!(game.player(), start.player());
    assert_eq!(game.enemy(), start.enemy());
    assert_eq!(game.score(), start.score());
    assert_eq!(game.ball_owner(), start.ball_owner());
    assert!(!game.is_game_over());
    // exactly the tick length is not beyond it
    game.update(micros(5_000));
    assert_eq!(game.waiting_time(), micros(20_000));
    assert_eq!(game.ball(), start.ball());
    assert_eq!(game.player(), start.player());
}

#[test]
fn the_frame_that_crosses_the_tick_length_runs_one_tick() {
    let mut game = Game::new_game(50, 55);
    game.key_pressed(Key::Up);
    game.update(micros(5_000));
    game.update(micros(5_000));
    game.update(micros(5_000));
    game.update(micros(6_000));
    // one tick, by the length of the last frame alone
    assert_eq!(game.ball(), Ball::new(micros(6_600_000), units(9), units(100), units(0)));
    assert_eq!(game.player().get_position_y(), units(9));
    assert_eq!(game.waiting_time(), Fixed::zero());
    // the same as one tick on the game as it began
    let mut other = Game::new_game(50, 55);
    other.key_pressed(Key::Up);
    other.update_ball(micros(6_000));
    other.update_player(other.get_dir());
    other.update_ai(micros(6_000));
    assert_eq!(game, other);
    // and the next short frame gathers time again
    game.update(micros(5_000));
    assert_eq!(game.ball(), Ball::new(micros(6_600_000), units(9), units(100), units(0)));
    assert_eq!(game.waiting_time(), micros(5_000));
}

#[test]
fn a_long_frame_runs_one_tick() {
    let mut game = Game::new_game(50, 55);
    game.update(frame());
    assert_eq!(game.ball(), Ball::new(units(9), units(9), units(100), units(0)));
    assert_eq!(game.player(), player());
    assert_eq!(game.enemy(), enemy());
    assert_eq!(game.waiting_time(), Fixed::zero());
    assert_eq!(game.score(), 0);
    assert_eq!(game.ball_owner(), Owner::Enemy);
}

#[test]
fn paddles_still_move_in_the_tick_that_ends_the_round() {
    let mut game = playing(Ball::new(units(49), units(20), units(100), units(0)), 0, Owner::Player);
    game.key_pressed(Key::Down);
    game.update(frame());
    assert!(game.is_game_over());
    assert_eq!(game.player().get_position_y(), units(11));
    assert_eq!(game.ball().get_position_x(), units(49));
    assert_eq!(game.waiting_time(), Fixed::zero());
}

#[test]
fn nothing_moves_while_the_round_is_over() {
    let mut game = round_over(2, Owner::Enemy);
    let before = game;
    game.update(micros(500_000));
    assert_eq!(game.waiting_time(), micros(500_000));
    assert!(game.is_game_over());
    assert_eq!(game.ball(), before.ball());
    assert_eq!(game.player(), before.player());
    assert_eq!(game.enemy(), before.enemy());
    assert_eq!(game.score(), 2);
    assert_eq!(game.ball_owner(), Owner::Enemy);
    // exactly the restart delay is not beyond it
    game.update(micros(500_000));
    assert_eq!(game.waiting_time(), micros(1_000_000));
    assert!(game.is_game_over());
    assert_eq!(game.ball(), before.ball());
    assert_eq!(game.score(), 2);
}

#[test]
fn the_round_restarts_after_the_delay() {
    let mut game = round_over(2, Owner::Enemy);
    game.update(micros(500_000));
    game.update(micros(500_000));
    game.update(micros(1));
    assert!(!game.is_game_over());
    assert_eq!(game.score(), 1);
    assert_eq!(game.ball(), Ball::new(units(6), units(27), units(100), units(0)));
    assert_eq!(game.waiting_time(), Fixed::zero());
    assert_eq!(game.ball_owner(), Owner::Enemy);
    assert_eq!(game.player(), player());
    assert_eq!(game.enemy(), enemy());
}

#[test]
fn a_whole_round() {
    let mut game = Game::new_game(50, 55);
    // the served ball flies level at height 9, above the player's paddle
    let mut ticks = 0;
    while !game.is_game_over() {
        game.update(frame());
        ticks += 1;
        assert!(ticks < 100);
    }
    // 6, 9, 12, ..., 48 are reached; 51 is beyond the field
    assert_eq!(ticks, 15);
    assert_eq!(game.ball().get_position_x(), units(48));
    assert_eq!(game.score(), 0);
    for _ in 0..33 {
        game.update(frame());
    }
    assert!(game.is_game_over());
    game.update(frame());
    assert!(!game.is_game_over());
    assert_eq!(game.score(), 0);
    assert_eq!(game.ball(), Ball::new(units(6), units(27), units(100), units(0)));
}

#[test]
fn field_and_paddle_measures_never_change() {
    let mut game = Game::new_game(50, 55);
    let keys = [Key::Up, Key::Down, Key::Other, Key::Down];
    for step in 0..400 {
        game.key_pressed(keys[step % 4]);
        game.update(micros(7_000 + 1_000 * (step as i64 % 30)));
        if step % 7 == 0 {
            game.key_released();
        }
        assert_eq!(game.width(), 50);
        assert_eq!(game.height(), 55);
        assert_eq!(game.player().get_position_x(), units(47));
        assert_eq!(game.enemy().get_position_x(), units(3));
        assert_eq!(game.player().get_size(), 5);
        assert_eq!(game.enemy().get_size(), 5);
        // both paddles stay strictly inside the playfield
        for paddle in [game.player(), game.enemy()] {
            assert!(paddle.get_position_y().gt(units(5)));
            assert!(paddle.get_position_y().plus(units(5)).lt(units(55)));
        }
    }
}
