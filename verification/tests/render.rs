use pong::assets::{Ball, Paddle};
use pong::fixed::Fixed;
use pong::game::{Game, Owner};
use pong::render::{Caption, Color, Shape};

fn units(n: i32) -> Fixed {
    Fixed::from_int(n)
}

fn white_rectangle(x: i32, y: i32, width: i32, height: i32) -> Shape {
    Shape::Rectangle { color: Color::white(), x: units(x), y: units(y), width, height }
}

#[test]
fn colours() {
    let white = Color::white();
    assert_eq!(white.red, Fixed::one());
    assert_eq!(white.green, Fixed::one());
    assert_eq!(white.blue, Fixed::one());
    assert_eq!(white.alpha, Fixed::one());
    let veil = Color::veil();
    assert_eq!(veil.red.micros(), 800_000);
    assert_eq!(veil.green.micros(), 0);
    assert_eq!(veil.blue.micros(), 0);
    assert_eq!(veil.alpha.micros(), 500_000);
}

#[test]
fn scene_of_a_round_in_progress() {
    let game = Game::new_game(50, 55);
    assert_eq!(
        game.draw(),
        vec![
            white_rectangle(47, 10, 1, 5),
            white_rectangle(3, 14, 1, 5),
            Shape::Block { color: Color::white(), x: units(6), y: units(9) },
            white_rectangle(0, 5, 50, 1),
            white_rectangle(0, 54, 50, 1),
            white_rectangle(0, 5, 1, 55),
            white_rectangle(49, 5, 1, 55),
            Shape::Text { caption: Caption::Score(0), y: units(5) },
            Shape::Text { caption: Caption::BallOwner(Owner::Enemy), y: units(20) },
        ]
    );
}

#[test]
fn scene_of_a_round_that_is_over() {
    let game = Game::from_parts(
        Paddle::new(units(17), units(8), 5),
        Paddle::new(units(3), units(21), 5),
        Ball::new(units(19), units(12), units(100), units(0)),
        20,
        30,
        true,
        7,
        Owner::Player,
    );
    assert_eq!(
        game.draw(),
        vec![
            white_rectangle(17, 8, 1, 5),
            white_rectangle(3, 21, 1, 5),
            white_rectangle(0, 5, 20, 1),
            white_rectangle(0, 29, 20, 1),
            white_rectangle(0, 5, 1, 30),
            white_rectangle(19, 5, 1, 30),
            Shape::Text { caption: Caption::Score(7), y: units(5) },
            Shape::Text { caption: Caption::BallOwner(Owner::Player), y: units(20) },
            Shape::Rectangle { color: Color::veil(), x: units(0), y: units(5), width: 20, height: 30 },
        ]
    );
}

#[test]
fn score_caption() {
    assert_eq!(Caption::Score(0).text(), "SCORE: 0");
    assert_eq!(Caption::Score(7).text(), "SCORE: 7");
    assert_eq!(Caption::Score(10).text(), "SCORE: 10");
    assert_eq!(Caption::Score(1203).text(), "SCORE: 1203");
    assert_eq!(Caption::Score(-45).text(), "SCORE: -45");
    assert_eq!(Caption::Score(i32::MAX).text(), "SCORE: 2147483647");
    assert_eq!(Caption::Score(i32::MIN).text(), "SCORE: -2147483648");
}

#[test]
fn score_caption_agrees_with_the_standard_formatting() {
    for score in [-1000, -999, -10, -9, -1, 1, 9, 99, 100, 101, 65_536, 1_000_000_000] {
        assert_eq!(Caption::Score(score).text(), format!("SCORE: {}", score));
    }
}

#[test]
fn owner_caption() {
    assert_eq!(Caption::BallOwner(Owner::Player).text(), "BALL HIT BY: Player");
    assert_eq!(Caption::BallOwner(Owner::Enemy).text(), "BALL HIT BY: Enemy");
    assert_eq!(Owner::Player.name(), "Player");
    assert_eq!(Owner::Enemy.name(), "Enemy");
}
