//! What holds of the game whatever is played: the properties of frames,
//! rounds, paddles and score that follow from the rules in [`crate::game`].

use vstd::prelude::*;
use crate::assets::{Ball, BallView, Paddle};
use crate::fixed::{sat_add, whole, Fixed, LIMIT};
use crate::game::{
    half, opponent_direction, returned_by, Game, GameView, Key, Owner, GAME_SPEED,
    RESTART_TIME, SERVE_SPEED, TEXT_AREA_HEIGHT,
};

verus! {

/// Sum of the frame lengths `deltas`.
pub open spec fn total(deltas: Seq<int>) -> int
    decreases deltas.len(),
{
    if deltas.len() == 0 {
        0
    } else {
        total(deltas.drop_last()) + deltas.last()
    }
}

/// Starting from `waiting` seconds already waited, the time waited after
/// each of the frames `deltas` is representable and not beyond the tick
/// length.
pub open spec fn below_tick(waiting: int, deltas: Seq<int>) -> bool {
    forall|k: int|
        0 <= k <= deltas.len() ==> -(LIMIT as int) <= waiting + #[trigger] total(
            deltas.take(k),
        ) <= GAME_SPEED
}

/// In a fresh game on a field more than nineteen units high, both paddles
/// lie strictly inside the playfield.
pub proof fn lemma_new_game_paddles_inside(width: i32, height: i32)
    requires
        height > 19,
    ensures
        GameView::new_game(width as int, height as int).paddles_inside(),
{
}

/// Paddles that lie strictly inside the playfield still do after a frame of
/// any length, after a key goes down or comes up, and after a restart.
pub proof fn lemma_paddles_stay_inside(game: Game, delta_time: Fixed, key: Key)
    requires
        game@.paddles_inside(),
    ensures
        game@.update(delta_time@).paddles_inside(),
        game@.key_pressed(key).paddles_inside(),
        game@.key_released().paddles_inside(),
        game@.restart().paddles_inside(),
{
    game.lemma_view_bounds();
    let waiting = game@.having_waited(game@.waited(delta_time@));
    let ball_done = waiting.update_ball(delta_time@);
    assert(ball_done.player == game@.player && ball_done.enemy == game@.enemy);
    assert(ball_done.height == game@.height);
}

/// No frame, key or restart changes the measures of the field and of the
/// paddles; a frame changes the score by one point at most, and a key changes
/// nothing but the key that is held.
pub proof fn lemma_field_is_fixed(game: GameView, delta_time: int, key: Key)
    ensures
        game.update(delta_time).same_field(game),
        game.key_pressed(key).same_field(game),
        game.key_released().same_field(game),
        game.restart().same_field(game),
        game.score - 1 <= game.update(delta_time).score <= game.score + 1,
        game.key_pressed(key) == (GameView {
            active_key: game.key_pressed(key).active_key,
            ..game
        }),
        game.key_released() == (GameView { active_key: None, ..game }),
{
    let waiting = game.having_waited(game.waited(delta_time));
    let ball_done = waiting.update_ball(delta_time);
    assert(ball_done.same_field(game));
}

/// A ball that would leave the field sideways beyond the player's paddle
/// ends the round: the score stands and the ball stays where it is.
pub proof fn lemma_miss_ends_the_round(game: GameView, delta_time: int)
    requires
        game.leaves_field(game.ball.next_location(delta_time).0),
        game.passes_player(game.ball.next_location(delta_time).0),
    ensures
        game.update_ball(delta_time) == (GameView { game_over: true, ..game }),
{
}

/// A ball that would leave the field sideways, but not beyond the player's
/// paddle, is served again for exactly one point: it flies towards the
/// player at the serving speed from the serving place, and the state of the
/// round is as it was.
pub proof fn lemma_save_scores_a_point(game: GameView, delta_time: int)
    requires
        game.leaves_field(game.ball.next_location(delta_time).0),
        !game.passes_player(game.ball.next_location(delta_time).0),
        game.score < i32::MAX,
    ensures
        game.update_ball(delta_time) == (GameView {
            score: game.score + 1,
            ball: BallView {
                x: whole(6),
                y: whole(TEXT_AREA_HEIGHT + 6),
                velocity_x: whole(SERVE_SPEED as int),
                velocity_y: 0,
            },
            ..game
        }),
{
}

/// Frames that together do not carry the time waited beyond the tick length
/// change nothing but the time waited, which is their sum added to what had
/// been waited before.
pub proof fn lemma_frames_coalesce(game: GameView, deltas: Seq<int>)
    requires
        !game.game_over,
        below_tick(game.waiting_time, deltas),
    ensures
        game.run(deltas) == game.having_waited(game.waiting_time + total(deltas)),
    decreases deltas.len(),
{
    assert(deltas.take(deltas.len() as int) == deltas);
    if deltas.len() == 0 {
    } else {
        let earlier = deltas.drop_last();
        assert forall|k: int| 0 <= k <= earlier.len() implies -(LIMIT as int)
            <= game.waiting_time + #[trigger] total(earlier.take(k)) <= GAME_SPEED by {
            assert(earlier.take(k) == deltas.take(k));
        }
        lemma_frames_coalesce(game, earlier);
        assert(earlier.take(earlier.len() as int) == earlier);
    }
}

/// The frame that carries the time waited beyond the tick length, after
/// frames that did not, runs exactly one physics tick on the game as it was
/// before all of them, and leaves no time waited.
pub proof fn lemma_crossing_frame_ticks_once(game: GameView, deltas: Seq<int>, last: int)
    requires
        !game.game_over,
        below_tick(game.waiting_time, deltas),
        game.waiting_time + total(deltas) + last > GAME_SPEED,
    ensures
        game.run(deltas.push(last)) == game.tick(last),
        game.run(deltas.push(last)).waiting_time == 0,
{
    lemma_frames_coalesce(game, deltas);
    assert(deltas.take(deltas.len() as int) == deltas);
    assert(deltas.push(last).drop_last() == deltas);
    let gathered = game.having_waited(game.waiting_time + total(deltas));
    let crossing = gathered.having_waited(gathered.waited(last));
    assert(game.run(deltas.push(last)) == crossing.tick(last));
    lemma_tick_forgets_waiting(game, crossing.waiting_time, last);
}

/// A physics tick does not depend on the time that had been waited.
pub proof fn lemma_tick_forgets_waiting(game: GameView, waiting_time: int, delta_time: int)
    ensures
        game.having_waited(waiting_time).tick(delta_time) == game.tick(delta_time),
{
    let other = game.having_waited(waiting_time);
    assert(other.update_ball(delta_time) == game.update_ball(delta_time).having_waited(
        waiting_time,
    ));
}

/// While the round is over and the restart delay has not gone by, a frame
/// changes nothing but the time waited.
pub proof fn lemma_round_over_freezes(game: GameView, delta_time: int)
    requires
        game.game_over,
        game.waited(delta_time) <= RESTART_TIME,
    ensures
        game.update(delta_time) == game.having_waited(game.waited(delta_time)),
{
}

/// A restart, whatever the state it is asked for in, serves the ball: the
/// round is on, no time is waited, and the ball flies towards the player at
/// the serving speed from the middle of the left side. The last touch counts
/// as the opponent's. A point is taken exactly when the last touch had been
/// the opponent's and there was a point to take. Paddles, field and held key
/// are as they were.
pub proof fn lemma_restart_serves(game: GameView)
    ensures
        !game.restart().game_over,
        game.restart().waiting_time == 0,
        game.restart().ball == (BallView {
            x: whole(6),
            y: whole(half(game.height)),
            velocity_x: whole(SERVE_SPEED as int),
            velocity_y: 0,
        }),
        game.restart().ball_owner == Owner::Enemy,
        game.restart().score == if game.ball_owner == Owner::Enemy && game.score > 0 {
            game.score - 1
        } else {
            game.score
        },
        game.restart().player == game.player,
        game.restart().enemy == game.enemy,
        game.restart().active_key == game.active_key,
{
}

/// The frame that completes the restart delay restarts the round.
pub proof fn lemma_restart_delay_serves(game: GameView, delta_time: int)
    requires
        game.game_over,
        game.waited(delta_time) > RESTART_TIME,
    ensures
        game.update(delta_time) == game.restart(),
{
}

/// While the ball does not approach, the opponent decides to stay, wherever
/// the ball is expected, and its turn leaves its paddle where it is.
pub proof fn lemma_opponent_idles_when_ball_recedes(game: GameView, next_y: int, delta_time: int)
    requires
        game.ball.velocity_x >= 0,
    ensures
        opponent_direction(game.ball.velocity_x, next_y, game.enemy).is_none(),
        game.update_ai(delta_time).enemy == game.enemy,
{
}

/// A ball that strikes a paddle at the height of its centre is sent back
/// with its vertical velocity unchanged and its horizontal velocity reversed.
pub proof fn lemma_centre_hit_adds_no_spin(ball: Ball, paddle: Paddle)
    ensures
        ({
            let centre = sat_add(paddle@.y, whole(half(paddle@.size)));
            returned_by(ball@, paddle@, centre) == ball@.flip_x()
        }),
{
    ball.lemma_view_bounds();
    paddle.lemma_view_bounds();
}

} // verus!
