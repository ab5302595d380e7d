//! The simulation controller: one ball, the player's paddle and the scripted
//! opponent's, the score, and the two states of a round.
//!
//! The model of a [`Game`] is a [`GameView`]; what each operation does is a
//! function from one `GameView` to the next, and the executable operations
//! are proved to compute exactly that function.

use vstd::prelude::*;
use crate::assets::{Ball, BallView, MovementDirection, Paddle, PaddleView};
use crate::fixed::{ceil, clamp, floor, in_range, sat_add, sat_mul, sat_sub, whole, Fixed};
use crate::render::{veil, white, Caption, Color, Shape, ShapeView};

verus! {

/// Height, in whole units, of the strip above the playfield that is kept for
/// text.
pub const TEXT_AREA_HEIGHT: i32 = 5;

/// Millionths of a second that must have gone by before the next physics
/// tick.
pub const GAME_SPEED: i64 = 20_000;

/// Millionths of a second between the end of a round and the next serve.
pub const RESTART_TIME: i64 = 1_000_000;

/// Millionths of a second between two decisions of the opponent.
pub const AI_RESPONSE_TIME: i64 = 10_000;

/// Horizontal speed of a served ball, in whole units per second.
pub const SERVE_SPEED: i32 = 100;

/// Vertical velocity that a paddle adds to the ball it returns, for each
/// unit by which the paddle's centre lies below the place where the ball
/// strikes. Negative: a ball that strikes above the centre is sent upwards.
pub const SPIN: i32 = -20;

/// Height of every paddle, in whole units.
pub const PADDLE_SIZE: i32 = 5;

/// Height, in whole units, at which the score is written.
pub const SCORE_LINE: i32 = 5;

/// Height, in whole units, at which the last touch is written.
pub const OWNER_LINE: i32 = 20;

/// A key of the keyboard, as far as the game tells keys apart.
#[derive(Copy, Clone, PartialEq, Eq, Structural, Debug)]
pub enum Key {
    Up,
    Down,
    Other,
}

/// The paddle that touched the ball last.
#[derive(Copy, Clone, PartialEq, Eq, Structural, Debug)]
pub enum Owner {
    Player,
    Enemy,
}

/// Half of `n`, rounded towards zero.
pub open spec fn half(n: int) -> int {
    if n >= 0 {
        n / 2
    } else {
        -((-n) / 2)
    }
}

/// The direction in which the opponent wants to move: towards the place
/// where an approaching ball will be, and nowhere while the ball recedes.
pub open spec fn opponent_direction(
    velocity_x: int,
    next_y: int,
    enemy: PaddleView,
) -> Option<MovementDirection> {
    if velocity_x < 0 && next_y < enemy.y {
        Some(MovementDirection::Up)
    } else if velocity_x < 0 && next_y > sat_add(enemy.y, whole(enemy.size)) {
        Some(MovementDirection::Down)
    } else {
        None
    }
}

/// Whether a ball projected to `next_y` is level with the paddle: between its
/// top and its bottom, both included.
pub open spec fn level_with(paddle: PaddleView, next_y: int) -> bool {
    paddle.y <= next_y <= sat_add(paddle.y, whole(paddle.size))
}

/// The ball after a paddle has returned it: its horizontal velocity is
/// reversed, and its vertical velocity grows with the distance between the
/// paddle's centre and the place `next_y` where the ball struck.
pub open spec fn returned_by(ball: BallView, paddle: PaddleView, next_y: int) -> BallView {
    let centre = sat_add(paddle.y, whole(half(paddle.size)));
    ball.flip_x().increase_y(clamp((SPIN as int) * sat_sub(centre, next_y)))
}

/// Model of a [`Game`].
pub struct GameView {
    pub player: PaddleView,
    pub enemy: PaddleView,
    pub ball: BallView,
    pub width: int,
    pub height: int,
    pub game_over: bool,
    pub waiting_time: int,
    pub ai_response_time: int,
    pub ai_update_time: int,
    pub active_key: Option<Key>,
    pub score: int,
    pub ball_owner: Owner,
}

impl GameView {
    /// A fresh game on a field of `width` by `height` units.
    pub open spec fn new_game(width: int, height: int) -> GameView {
        GameView {
            player: PaddleView {
                x: whole(width - 3),
                y: whole(TEXT_AREA_HEIGHT + 5),
                size: PADDLE_SIZE as int,
            },
            enemy: PaddleView {
                x: whole(3),
                y: whole(TEXT_AREA_HEIGHT + 9),
                size: PADDLE_SIZE as int,
            },
            ball: BallView {
                x: whole(6),
                y: whole(TEXT_AREA_HEIGHT + 4),
                velocity_x: whole(SERVE_SPEED as int),
                velocity_y: 0,
            },
            width,
            height,
            game_over: false,
            waiting_time: 0,
            ai_response_time: AI_RESPONSE_TIME as int,
            ai_update_time: 0,
            active_key: None,
            score: 0,
            ball_owner: Owner::Enemy,
        }
    }

    /// Upper boundary of the paddles' travel.
    pub open spec fn min_y(self) -> int {
        whole(TEXT_AREA_HEIGHT as int)
    }

    /// Lower boundary of the paddles' travel.
    pub open spec fn max_y(self) -> int {
        whole(self.height)
    }

    /// A key went down. While the round is over the keyboard is ignored.
    pub open spec fn key_pressed(self, key: Key) -> GameView {
        if self.game_over {
            self
        } else {
            GameView { active_key: Some(key), ..self }
        }
    }

    /// A key came up.
    pub open spec fn key_released(self) -> GameView {
        GameView { active_key: None, ..self }
    }

    /// The direction that the held key asks of the player's paddle.
    pub open spec fn direction(self) -> Option<MovementDirection> {
        match self.active_key {
            Some(Key::Up) => Some(MovementDirection::Up),
            Some(Key::Down) => Some(MovementDirection::Down),
            _ => None,
        }
    }

    /// The ball as it is served: at `(x, y)` and flying towards the player.
    pub open spec fn served(self, x: int, y: int) -> BallView {
        self.ball.with_velocity(whole(SERVE_SPEED as int), 0).with_position(x, y)
    }

    /// The next round begins. A round whose last touch was the opponent's
    /// costs a point, if there is one to lose.
    pub open spec fn restart(self) -> GameView {
        GameView {
            score: if self.ball_owner == Owner::Enemy && self.score > 0 {
                self.score - 1
            } else {
                self.score
            },
            ball_owner: Owner::Enemy,
            waiting_time: 0,
            ball: self.served(whole(6), whole(half(self.height))),
            game_over: false,
            ..self
        }
    }

    /// Whether a ball projected to `next_x` has left the field sideways.
    pub open spec fn leaves_field(self, next_x: int) -> bool {
        next_x > whole(self.width) || next_x < 0
    }

    /// Whether a ball projected to `next_x` is beyond the player's paddle by
    /// more than one unit.
    pub open spec fn passes_player(self, next_x: int) -> bool {
        next_x > sat_add(self.player.x, whole(1))
    }

    /// Whether a ball projected to `next_y` meets the upper or the lower
    /// wall.
    pub open spec fn meets_wall(self, next_y: int) -> bool {
        next_y > whole(self.height - 1) || next_y < whole(TEXT_AREA_HEIGHT + 1)
    }

    /// Whether a ball projected to `(next_x, next_y)` meets the player's
    /// paddle.
    pub open spec fn meets_player(self, next_x: int, next_y: int) -> bool {
        floor(next_x) >= sat_sub(self.player.x, whole(1)) && level_with(self.player, next_y)
    }

    /// Whether a ball projected to `(next_x, next_y)` meets the opponent's
    /// paddle.
    pub open spec fn meets_enemy(self, next_x: int, next_y: int) -> bool {
        ceil(next_x) <= sat_add(self.enemy.x, whole(1)) && level_with(self.enemy, next_y)
    }

    /// The score after one more point. It does not go beyond what the
    /// counter can hold.
    pub open spec fn score_after_point(self) -> int {
        if self.score < i32::MAX {
            self.score + 1
        } else {
            self.score
        }
    }

    /// One step of the ball over `delta_time` seconds.
    ///
    /// A ball that would leave the field sideways either ends the round, when
    /// it is past the player's paddle, or else is served again for a point;
    /// nothing more happens in that step. While the round is over the ball
    /// rests. Otherwise the ball bounces off a wall it would meet, is returned
    /// by each paddle it would meet, and moves to the projected place.
    pub open spec fn update_ball(self, delta_time: int) -> GameView {
        let (next_x, next_y) = self.ball.next_location(delta_time);
        if self.leaves_field(next_x) {
            if self.passes_player(next_x) {
                GameView { game_over: true, ..self }
            } else {
                GameView {
                    ball: self.served(whole(6), whole(TEXT_AREA_HEIGHT + 6)),
                    score: self.score_after_point(),
                    ..self
                }
            }
        } else if self.game_over {
            self
        } else {
            let off_wall = if self.meets_wall(next_y) {
                self.ball.flip_y()
            } else {
                self.ball
            };
            let off_player = if self.meets_player(next_x, next_y) {
                returned_by(off_wall, self.player, next_y)
            } else {
                off_wall
            };
            let off_enemy = if self.meets_enemy(next_x, next_y) {
                returned_by(off_player, self.enemy, next_y)
            } else {
                off_player
            };
            GameView {
                ball: off_enemy.with_position(next_x, next_y),
                ball_owner: if self.meets_enemy(next_x, next_y) {
                    Owner::Enemy
                } else if self.meets_player(next_x, next_y) {
                    Owner::Player
                } else {
                    self.ball_owner
                },
                ..self
            }
        }
    }

    /// The player's paddle follows `dir`.
    pub open spec fn update_player(self, dir: Option<MovementDirection>) -> GameView {
        GameView { player: self.player.slide(dir, self.min_y(), self.max_y()), ..self }
    }

    /// The opponent's turn. It decides only once its response time has gone
    /// by since its last decision.
    pub open spec fn update_ai(self, delta_time: int) -> GameView {
        let elapsed = sat_add(self.ai_update_time, delta_time);
        if elapsed < self.ai_response_time {
            GameView { ai_update_time: elapsed, ..self }
        } else {
            let dir = opponent_direction(
                self.ball.velocity_x,
                self.ball.next_location(delta_time).1,
                self.enemy,
            );
            GameView {
                ai_update_time: 0,
                enemy: self.enemy.slide(dir, self.min_y(), self.max_y()),
                ..self
            }
        }
    }

    /// One physics tick: the ball, then the player, then the opponent.
    pub open spec fn tick(self, delta_time: int) -> GameView {
        let ball_done = self.update_ball(delta_time);
        let player_done = ball_done.update_player(ball_done.direction());
        GameView { waiting_time: 0, ..player_done.update_ai(delta_time) }
    }

    /// The time waited once `delta_time` more seconds have gone by.
    pub open spec fn waited(self, delta_time: int) -> int {
        sat_add(self.waiting_time, delta_time)
    }

    /// The frame round the playfield: top, bottom, left and right.
    pub open spec fn border(self) -> Seq<ShapeView> {
        let top = whole(TEXT_AREA_HEIGHT as int);
        seq![
            ShapeView::Rectangle { color: white(), x: 0, y: top, width: self.width, height: 1 },
            ShapeView::Rectangle {
                color: white(),
                x: 0,
                y: whole(self.height - 1),
                width: self.width,
                height: 1,
            },
            ShapeView::Rectangle { color: white(), x: 0, y: top, width: 1, height: self.height },
            ShapeView::Rectangle {
                color: white(),
                x: whole(self.width - 1),
                y: top,
                width: 1,
                height: self.height,
            },
        ]
    }

    /// The two lines of text: the score, and the last touch.
    pub open spec fn captions(self) -> Seq<ShapeView> {
        seq![
            ShapeView::Text {
                caption: Caption::Score(self.score as i32),
                y: whole(SCORE_LINE as int),
            },
            ShapeView::Text {
                caption: Caption::BallOwner(self.ball_owner),
                y: whole(OWNER_LINE as int),
            },
        ]
    }

    /// Everything that is shown, in the order in which it is drawn: the
    /// paddles, the ball while the round is on, the frame, the text, and the
    /// veil over the whole field while the round is over.
    pub open spec fn scene(self) -> Seq<ShapeView> {
        seq![self.player.shape(), self.enemy.shape()] + (if self.game_over {
            Seq::<ShapeView>::empty()
        } else {
            seq![self.ball.shape()]
        }) + self.border() + self.captions() + (if self.game_over {
            seq![
                ShapeView::Rectangle {
                    color: veil(),
                    x: 0,
                    y: whole(TEXT_AREA_HEIGHT as int),
                    width: self.width,
                    height: self.height,
                },
            ]
        } else {
            Seq::<ShapeView>::empty()
        })
    }

    /// Both paddles lie strictly inside the playfield.
    pub open spec fn paddles_inside(self) -> bool {
        self.player.inside(self.min_y(), self.max_y()) && self.enemy.inside(
            self.min_y(),
            self.max_y(),
        )
    }

    /// Field and paddles have the same measures in both games: the field's
    /// width and height, each paddle's column and height, and the opponent's
    /// response time.
    pub open spec fn same_field(self, other: GameView) -> bool {
        &&& self.width == other.width
        &&& self.height == other.height
        &&& self.player.x == other.player.x
        &&& self.player.size == other.player.size
        &&& self.enemy.x == other.enemy.x
        &&& self.enemy.size == other.enemy.size
        &&& self.ai_response_time == other.ai_response_time
    }

    /// The game with `waiting_time` as the time waited and all else as it
    /// is.
    pub open spec fn having_waited(self, waiting_time: int) -> GameView {
        GameView { waiting_time, ..self }
    }

    /// The game after the frames `deltas`, in their order.
    pub open spec fn run(self, deltas: Seq<int>) -> GameView
        decreases deltas.len(),
    {
        if deltas.len() == 0 {
            self
        } else {
            self.run(deltas.drop_last()).update(deltas.last())
        }
    }

    /// One frame of `delta_time` seconds.
    pub open spec fn update(self, delta_time: int) -> GameView {
        let waiting = GameView { waiting_time: self.waited(delta_time), ..self };
        if self.game_over {
            if waiting.waiting_time > RESTART_TIME {
                waiting.restart()
            } else {
                waiting
            }
        } else if waiting.waiting_time > GAME_SPEED {
            waiting.tick(delta_time)
        } else {
            waiting
        }
    }
}

/// The simulation of one game.
#[derive(Copy, Clone, PartialEq, Eq, Debug)]
pub struct Game {
    player: Paddle,
    enemy: Paddle,
    ball: Ball,
    width: i32,
    height: i32,
    game_over: bool,
    waiting_time: Fixed,
    ai_response_time: Fixed,
    ai_update_time: Fixed,
    active_key: Option<Key>,
    score: i32,
    ball_owner: Owner,
}

impl View for Game {
    type V = GameView;

    closed spec fn view(&self) -> GameView {
        GameView {
            player: self.player@,
            enemy: self.enemy@,
            ball: self.ball@,
            width: self.width as int,
            height: self.height as int,
            game_over: self.game_over,
            waiting_time: self.waiting_time@,
            ai_response_time: self.ai_response_time@,
            ai_update_time: self.ai_update_time@,
            active_key: self.active_key,
            score: self.score as int,
            ball_owner: self.ball_owner,
        }
    }
}

impl Game {
    /// A fresh game on a field of `width` by `height` units: both paddles in
    /// place, the ball served towards the player, nothing scored.
    pub fn new_game(width: i32, height: i32) -> (r: Game)
        ensures
            r@ == GameView::new_game(width as int, height as int),
    {
        Game {
            player: Paddle::new(
                Fixed::from_int(width).minus(Fixed::from_int(3)),
                Fixed::from_int(TEXT_AREA_HEIGHT + 5),
                PADDLE_SIZE,
            ),
            enemy: Paddle::new(
                Fixed::from_int(3),
                Fixed::from_int(TEXT_AREA_HEIGHT + 9),
                PADDLE_SIZE,
            ),
            waiting_time: Fixed::zero(),
            ai_response_time: Fixed::from_micros(AI_RESPONSE_TIME),
            ai_update_time: Fixed::zero(),
            ball: Ball::new(
                Fixed::from_int(6),
                Fixed::from_int(TEXT_AREA_HEIGHT + 4),
                Fixed::from_int(SERVE_SPEED),
                Fixed::zero(),
            ),
            width,
            height,
            game_over: false,
            active_key: None,
            score: 0,
            ball_owner: Owner::Enemy,
        }
    }

    /// A game in the state described: the two paddles, the ball, the field,
    /// whether the round is over, the score and the last touch. No time has
    /// been waited, no key is held, and the opponent responds as in a fresh
    /// game.
    pub fn from_parts(
        player: Paddle,
        enemy: Paddle,
        ball: Ball,
        width: i32,
        height: i32,
        game_over: bool,
        score: i32,
        ball_owner: Owner,
    ) -> (r: Game)
        ensures
            r@ == (GameView {
                player: player@,
                enemy: enemy@,
                ball: ball@,
                width: width as int,
                height: height as int,
                game_over,
                waiting_time: 0,
                ai_response_time: AI_RESPONSE_TIME as int,
                ai_update_time: 0,
                active_key: None,
                score: score as int,
                ball_owner,
            }),
    {
        Game {
            player,
            enemy,
            ball,
            width,
            height,
            game_over,
            waiting_time: Fixed::zero(),
            ai_response_time: Fixed::from_micros(AI_RESPONSE_TIME),
            ai_update_time: Fixed::zero(),
            active_key: None,
            score,
            ball_owner,
        }
    }

    /// The player's paddle.
    pub fn player(&self) -> (r: Paddle)
        ensures
            r@ == self@.player,
    {
        self.player
    }

    /// The opponent's paddle.
    pub fn enemy(&self) -> (r: Paddle)
        ensures
            r@ == self@.enemy,
    {
        self.enemy
    }

    /// The ball.
    pub fn ball(&self) -> (r: Ball)
        ensures
            r@ == self@.ball,
    {
        self.ball
    }

    /// Width of the field, in whole units.
    pub fn width(&self) -> (r: i32)
        ensures
            r as int == self@.width,
    {
        self.width
    }

    /// Height of the field, in whole units.
    pub fn height(&self) -> (r: i32)
        ensures
            r as int == self@.height,
    {
        self.height
    }

    /// Whether the round is over and the next serve is awaited.
    pub fn is_game_over(&self) -> (r: bool)
        ensures
            r == self@.game_over,
    {
        self.game_over
    }

    /// Time gathered since the last physics tick or, while the round is
    /// over, since its end.
    pub fn waiting_time(&self) -> (r: Fixed)
        ensures
            r@ == self@.waiting_time,
    {
        self.waiting_time
    }

    /// The player's score.
    pub fn score(&self) -> (r: i32)
        ensures
            r as int == self@.score,
    {
        self.score
    }

    /// The paddle that touched the ball last.
    pub fn ball_owner(&self) -> (r: Owner)
        ensures
            r == self@.ball_owner,
    {
        self.ball_owner
    }

    /// The key that is held, if any.
    pub fn active_key(&self) -> (r: Option<Key>)
        ensures
            r == self@.active_key,
    {
        self.active_key
    }

    /// Records `key` as the key that is held, unless the round is over.
    pub fn key_pressed(&mut self, key: Key)
        ensures
            final(self)@ == old(self)@.key_pressed(key),
    {
        if self.game_over {
            return ;
        }
        self.active_key = Some(key);
    }

    /// Records that no key is held.
    pub fn key_released(&mut self)
        ensures
            final(self)@ == old(self)@.key_released(),
    {
        self.active_key = None;
    }

    /// The direction that the held key asks for: the two arrow keys move the
    /// paddle, any other key does not.
    pub fn get_dir(&self) -> (r: Option<MovementDirection>)
        ensures
            r == self@.direction(),
    {
        match self.active_key {
            Some(Key::Up) => Some(MovementDirection::Up),
            Some(Key::Down) => Some(MovementDirection::Down),
            _ => None,
        }
    }

    /// The requests that show the game, in the order in which they are to be
    /// drawn.
    pub fn draw(&self) -> (r: Vec<Shape>)
        ensures
            r@.len() == self@.scene().len(),
            forall|i: int| 0 <= i < r@.len() ==> (#[trigger] r@[i])@ == self@.scene()[i],
    {
        let top = Fixed::from_int(TEXT_AREA_HEIGHT);
        let left = Fixed::zero();
        let mut shapes: Vec<Shape> = Vec::new();
        shapes.push(self.player.draw());
        shapes.push(self.enemy.draw());
        if !self.game_over {
            shapes.push(self.ball.draw());
        }
        shapes.push(
            Shape::Rectangle { color: Color::white(), x: left, y: top, width: self.width, height: 1 },
        );
        shapes.push(
            Shape::Rectangle {
                color: Color::white(),
                x: left,
                y: Fixed::from_int(self.height).minus(Fixed::one()),
                width: self.width,
                height: 1,
            },
        );
        shapes.push(
            Shape::Rectangle { color: Color::white(), x: left, y: top, width: 1, height: self.height },
        );
        shapes.push(
            Shape::Rectangle {
                color: Color::white(),
                x: Fixed::from_int(self.width).minus(Fixed::one()),
                y: top,
                width: 1,
                height: self.height,
            },
        );
        shapes.push(
            Shape::Text { caption: Caption::Score(self.score), y: Fixed::from_int(SCORE_LINE) },
        );
        shapes.push(
            Shape::Text {
                caption: Caption::BallOwner(self.ball_owner),
                y: Fixed::from_int(OWNER_LINE),
            },
        );
        if self.game_over {
            shapes.push(
                Shape::Rectangle {
                    color: Color::veil(),
                    x: left,
                    y: top,
                    width: self.width,
                    height: self.height,
                },
            );
        }
        shapes
    }

    /// Begins the next round: the ball is served from the middle of the
    /// field's left side, the round is on again, and a round whose last touch
    /// was the opponent's costs a point, if there is one to lose.
    pub fn restart(&mut self)
        ensures
            final(self)@ == old(self)@.restart(),
            final(self)@.ball.velocity_x == whole(SERVE_SPEED as int),
            final(self)@.ball.velocity_y == 0,
            !final(self)@.game_over,
    {
        if self.ball_owner == Owner::Enemy && self.score > 0 {
            self.score -= 1;
        }
        self.ball_owner = Owner::Enemy;
        self.waiting_time = Fixed::zero();
        self.ball.set_velocity(Fixed::from_int(SERVE_SPEED), Fixed::zero());
        self.ball.set_position(Fixed::from_int(6), Fixed::from_int(self.height / 2));
        self.game_over = false;
    }

    /// The ball after `paddle` has returned it from the place `next_y`.
    fn bounce_off(&mut self, paddle: Paddle, next_y: Fixed)
        ensures
            final(self)@ == (GameView {
                ball: returned_by(old(self)@.ball, paddle@, next_y@),
                ..old(self)@
            }),
    {
        let paddle_center = paddle.get_position_y().plus(Fixed::from_int(paddle.get_size() / 2));
        let d = paddle_center.minus(next_y);
        proof {
            d.lemma_in_range();
            lemma_spin(d@);
        }
        self.ball.flip_velocity_x();
        self.ball.increase_y(d.times(Fixed::from_int(SPIN)));
    }

    /// Advances the ball by `delta_time` seconds and resolves what it meets
    /// on the way: the sides of the field, the walls, the paddles.
    pub fn update_ball(&mut self, delta_time: Fixed)
        ensures
            final(self)@ == old(self)@.update_ball(delta_time@),
    {
        let (next_x, next_y) = self.ball.get_next_location(delta_time);

        if next_x.gt(Fixed::from_int(self.width)) || next_x.lt(Fixed::zero()) {
            if next_x.gt(self.player.get_position_x().plus(Fixed::one())) {
                self.game_over = true;
            } else {
                self.ball.set_velocity(Fixed::from_int(SERVE_SPEED), Fixed::zero());
                self.ball.set_position(Fixed::from_int(6), Fixed::from_int(TEXT_AREA_HEIGHT + 6));
                if self.score < i32::MAX {
                    self.score += 1;
                }
            }
            return ;
        }
        if self.game_over {
            return ;
        }
        if next_y.gt(Fixed::from_int(self.height).minus(Fixed::one())) || next_y.lt(
            Fixed::from_int(TEXT_AREA_HEIGHT + 1),
        ) {
            self.ball.flip_velocity_y();
        }
        if next_x.floor().ge(self.player.get_position_x().minus(Fixed::one()))
            && Game::is_level_with(&self.player, next_y) {
            let paddle = self.player;
            self.bounce_off(paddle, next_y);
            self.ball_owner = Owner::Player;
        }
        if next_x.ceil().le(self.enemy.get_position_x().plus(Fixed::one()))
            && Game::is_level_with(&self.enemy, next_y) {
            let paddle = self.enemy;
            self.bounce_off(paddle, next_y);
            self.ball_owner = Owner::Enemy;
        }
        self.ball.set_position(next_x, next_y);
    }

    /// Whether a ball projected to `next_y` is level with `paddle`.
    fn is_level_with(paddle: &Paddle, next_y: Fixed) -> (r: bool)
        ensures
            r == level_with(paddle@, next_y@),
    {
        next_y.ge(paddle.get_position_y()) && next_y.le(
            paddle.get_position_y().plus(Fixed::from_int(paddle.get_size())),
        )
    }

    /// Moves the player's paddle one step in the direction `dir`, within the
    /// playfield.
    pub fn update_player(&mut self, dir: Option<MovementDirection>)
        ensures
            final(self)@ == old(self)@.update_player(dir),
    {
        let min_y = Fixed::from_int(TEXT_AREA_HEIGHT);
        let max_y = Fixed::from_int(self.height);
        self.player.slide(dir, min_y, max_y);
    }

    /// Lets `delta_time` seconds go by for the opponent, which moves its
    /// paddle one step towards an approaching ball whenever its response time
    /// has gone by.
    pub fn update_ai(&mut self, delta_time: Fixed)
        ensures
            final(self)@ == old(self)@.update_ai(delta_time@),
    {
        self.ai_update_time = self.ai_update_time.plus(delta_time);
        if self.ai_update_time.lt(self.ai_response_time) {
            return ;
        }
        self.ai_update_time = Fixed::zero();

        let (_, next_y) = self.ball.get_next_location(delta_time);
        let dir = decide_opponent(self.ball.get_velocity_x(), next_y, &self.enemy);

        let min_y = Fixed::from_int(TEXT_AREA_HEIGHT);
        let max_y = Fixed::from_int(self.height);
        self.enemy.slide(dir, min_y, max_y);
    }

    /// One frame of `delta_time` seconds.
    ///
    /// While the round is over, time only counts towards the next serve.
    /// While it is on, frames are gathered until more than the tick length
    /// has gone by; the frame that gets there runs one physics tick.
    pub fn update(&mut self, delta_time: Fixed)
        ensures
            final(self)@ == old(self)@.update(delta_time@),
    {
        self.waiting_time = self.waiting_time.plus(delta_time);

        if self.game_over {
            if self.waiting_time.gt(Fixed::from_micros(RESTART_TIME)) {
                self.restart();
            }
            return ;
        }
        if self.waiting_time.gt(Fixed::from_micros(GAME_SPEED)) {
            self.update_ball(delta_time);
            let dir = self.get_dir();
            self.update_player(dir);
            self.update_ai(delta_time);
            self.waiting_time = Fixed::zero();
        }
    }
}

/// The opponent's decision, from the ball's horizontal velocity, the height
/// `next_y` at which the ball is expected, and the opponent's paddle.
pub fn decide_opponent(velocity_x: Fixed, next_y: Fixed, enemy: &Paddle) -> (r: Option<
    MovementDirection,
>)
    ensures
        r == opponent_direction(velocity_x@, next_y@, enemy@),
{
    let mut dir: Option<MovementDirection> = None;
    if velocity_x.lt(Fixed::zero()) {
        if next_y.lt(enemy.get_position_y()) {
            dir = Some(MovementDirection::Up);
        } else if next_y.gt(enemy.get_position_y().plus(Fixed::from_int(enemy.get_size()))) {
            dir = Some(MovementDirection::Down);
        }
    }
    dir
}

/// Multiplying a representable number by the spin factor loses nothing to
/// rounding.
proof fn lemma_spin(d: int)
    requires
        in_range(d),
    ensures
        sat_mul(d, whole(SPIN as int)) == clamp((SPIN as int) * d),
{
    assert(whole(SPIN as int) == -20_000_000);
    assert(d * (-20_000_000) == (-20 * d) * 1_000_000);
}

impl Game {
    /// The model of any game holds representable numbers, and integers that
    /// fit the machine integers they are stored in.
    pub proof fn lemma_view_bounds(self)
        ensures
            in_range(self@.waiting_time),
            in_range(self@.ai_response_time),
            in_range(self@.ai_update_time),
            in_range(self@.player.x),
            in_range(self@.player.y),
            in_range(self@.enemy.x),
            in_range(self@.enemy.y),
            in_range(self@.ball.x),
            in_range(self@.ball.y),
            in_range(self@.ball.velocity_x),
            in_range(self@.ball.velocity_y),
            i32::MIN <= self@.player.size <= i32::MAX,
            i32::MIN <= self@.enemy.size <= i32::MAX,
            i32::MIN <= self@.width <= i32::MAX,
            i32::MIN <= self@.height <= i32::MAX,
            i32::MIN <= self@.score <= i32::MAX,
    {
        self.waiting_time.lemma_in_range();
        self.ai_response_time.lemma_in_range();
        self.ai_update_time.lemma_in_range();
        self.player.lemma_view_bounds();
        self.enemy.lemma_view_bounds();
        self.ball.lemma_view_bounds();
    }
}

} // verus!
