//! The entities of the playfield: a paddle that slides vertically and a ball
//! that moves in a straight line between bounces.

use vstd::prelude::*;
use crate::fixed::{in_range, sat_add, sat_mul, sat_sub, whole, Fixed, SCALE};
use crate::render::{white, Color, Shape, ShapeView};

verus! {

/// The two ways a paddle can be asked to move.
#[derive(Copy, Clone, PartialEq, Eq, Structural, Debug)]
pub enum MovementDirection {
    Up,
    Down,
}

/// Model of a [`Paddle`]: the raw counts of its position, and its height in
/// whole units.
pub struct PaddleView {
    pub x: int,
    pub y: int,
    pub size: int,
}

impl PaddleView {
    /// How the paddle is shown: a white rectangle, one unit wide.
    pub open spec fn shape(self) -> ShapeView {
        ShapeView::Rectangle { color: white(), x: self.x, y: self.y, width: 1, height: self.size }
    }

    /// The paddle lies strictly between the two boundaries: its top edge
    /// past `min_y`, its bottom edge short of `max_y`.
    pub open spec fn inside(self, min_y: int, max_y: int) -> bool {
        min_y < self.y && self.y + whole(self.size) < max_y
    }

    /// Where one step upwards would put the paddle's top.
    pub open spec fn step_up(self) -> int {
        sat_sub(self.y, whole(1))
    }

    /// Where one step downwards would put the paddle's top.
    pub open spec fn step_down(self) -> int {
        sat_add(self.y, whole(1))
    }

    /// The paddle after a request to slide. It moves by one unit, and only
    /// when the place it would reach respects the boundary it moves towards.
    pub open spec fn slide(
        self,
        dir: Option<MovementDirection>,
        min_y: int,
        max_y: int,
    ) -> PaddleView {
        match dir {
            Some(MovementDirection::Up) => if self.step_up() > min_y {
                PaddleView { y: self.step_up(), ..self }
            } else {
                self
            },
            Some(MovementDirection::Down) => if sat_add(self.step_down(), whole(self.size))
                < max_y {
                PaddleView { y: self.step_down(), ..self }
            } else {
                self
            },
            None => self,
        }
    }
}

/// A rectangle one unit wide and `size` units tall that slides vertically.
#[derive(Copy, Clone, PartialEq, Eq, Debug)]
pub struct Paddle {
    position_x: Fixed,
    position_y: Fixed,
    paddle_size: i32,
}

impl View for Paddle {
    type V = PaddleView;

    closed spec fn view(&self) -> PaddleView {
        PaddleView { x: self.position_x@, y: self.position_y@, size: self.paddle_size as int }
    }
}

impl Paddle {
    /// A paddle whose top-left corner is at (`position_x`, `position_y`).
    pub fn new(position_x: Fixed, position_y: Fixed, paddle_size: i32) -> (r: Paddle)
        ensures
            r@ == (PaddleView { x: position_x@, y: position_y@, size: paddle_size as int }),
    {
        Paddle { position_x, position_y, paddle_size }
    }

    /// The rectangle that shows the paddle.
    pub fn draw(&self) -> (r: Shape)
        ensures
            r@ == self@.shape(),
    {
        Shape::Rectangle {
            color: Color::white(),
            x: self.position_x,
            y: self.position_y,
            width: 1,
            height: self.paddle_size,
        }
    }

    /// Moves the paddle one unit in the direction asked for, unless that
    /// would take it to or past the boundary on that side.
    pub fn slide(&mut self, dir: Option<MovementDirection>, min_y: Fixed, max_y: Fixed)
        ensures
            final(self)@ == old(self)@.slide(dir, min_y@, max_y@),
    {
        match dir {
            Some(MovementDirection::Up) => {
                let next_y = self.position_y.minus(Fixed::one());
                if next_y.gt(min_y) {
                    self.position_y = next_y;
                }
            },
            Some(MovementDirection::Down) => {
                let next_y = self.position_y.plus(Fixed::one());
                if next_y.plus(Fixed::from_int(self.paddle_size)).lt(max_y) {
                    self.position_y = next_y;
                }
            },
            None => {},
        }
    }

    /// Height of the paddle's top edge.
    pub fn get_position_y(&self) -> (r: Fixed)
        ensures
            r@ == self@.y,
    {
        self.position_y
    }

    /// Column of the paddle's left edge.
    pub fn get_position_x(&self) -> (r: Fixed)
        ensures
            r@ == self@.x,
    {
        self.position_x
    }

    /// Height of the paddle, in whole units.
    pub fn get_size(&self) -> (r: i32)
        ensures
            r as int == self@.size,
    {
        self.paddle_size
    }

    /// The model of any paddle has representable coordinates and a size that
    /// fits the machine integer it is stored in.
    pub proof fn lemma_view_bounds(self)
        ensures
            in_range(self@.x),
            in_range(self@.y),
            i32::MIN <= self@.size <= i32::MAX,
    {
        self.position_x.lemma_in_range();
        self.position_y.lemma_in_range();
    }
}

/// A paddle that lies strictly inside its boundaries still does after any
/// request to slide.
pub proof fn lemma_slide_keeps_inside(
    paddle: Paddle,
    dir: Option<MovementDirection>,
    min_y: Fixed,
    max_y: Fixed,
)
    requires
        paddle@.inside(min_y@, max_y@),
    ensures
        paddle@.slide(dir, min_y@, max_y@).inside(min_y@, max_y@),
{
    paddle.lemma_view_bounds();
    min_y.lemma_in_range();
    max_y.lemma_in_range();
}

/// Whenever a request to slide moves the paddle, the paddle ends strictly on
/// the inner side of the boundary it moved towards: no request carries it to
/// or across a boundary. A move upwards is by exactly one unit, and so is a
/// move downwards of a paddle whose height is not negative.
pub proof fn lemma_slide_never_crosses(
    paddle: Paddle,
    dir: Option<MovementDirection>,
    min_y: Fixed,
    max_y: Fixed,
)
    ensures
        ({
            let before = paddle@;
            let after = before.slide(dir, min_y@, max_y@);
            &&& after.x == before.x
            &&& after.size == before.size
            &&& after.y != before.y && dir == Some(MovementDirection::Up) ==> {
                &&& after.y == before.y - whole(1)
                &&& after.y > min_y@
            }
            &&& after.y != before.y && dir == Some(MovementDirection::Down) ==> {
                &&& after.y > before.y
                &&& after.y + whole(after.size) < max_y@
                &&& after.size >= 0 ==> after.y == before.y + whole(1)
            }
            &&& dir.is_none() ==> after.y == before.y
        }),
{
    paddle.lemma_view_bounds();
    min_y.lemma_in_range();
    max_y.lemma_in_range();
}

/// Model of a [`Ball`]: the raw counts of its position and of its velocity in
/// units per second.
pub struct BallView {
    pub x: int,
    pub y: int,
    pub velocity_x: int,
    pub velocity_y: int,
}

impl BallView {
    /// How the ball is shown: a white unit block.
    pub open spec fn shape(self) -> ShapeView {
        ShapeView::Block { color: white(), x: self.x, y: self.y }
    }

    /// Where the ball would be after `delta_time` seconds of straight flight.
    pub open spec fn next_location(self, delta_time: int) -> (int, int) {
        (
            sat_add(self.x, sat_mul(self.velocity_x, delta_time)),
            sat_add(self.y, sat_mul(self.velocity_y, delta_time)),
        )
    }

    /// The ball put at (`x`, `y`).
    pub open spec fn with_position(self, x: int, y: int) -> BallView {
        BallView { x, y, ..self }
    }

    /// The ball given the velocity (`velocity_x`, `velocity_y`).
    pub open spec fn with_velocity(self, velocity_x: int, velocity_y: int) -> BallView {
        BallView { velocity_x, velocity_y, ..self }
    }

    /// The ball with its horizontal velocity reversed.
    pub open spec fn flip_x(self) -> BallView {
        BallView { velocity_x: -self.velocity_x, ..self }
    }

    /// The ball with its vertical velocity reversed.
    pub open spec fn flip_y(self) -> BallView {
        BallView { velocity_y: -self.velocity_y, ..self }
    }

    /// The ball with `factor` added to its vertical velocity.
    pub open spec fn increase_y(self, factor: int) -> BallView {
        BallView { velocity_y: sat_add(self.velocity_y, factor), ..self }
    }
}

/// A point mass with a position and a velocity.
#[derive(Copy, Clone, PartialEq, Eq, Debug)]
pub struct Ball {
    x: Fixed,
    y: Fixed,
    velocity_x: Fixed,
    velocity_y: Fixed,
}

impl View for Ball {
    type V = BallView;

    closed spec fn view(&self) -> BallView {
        BallView {
            x: self.x@,
            y: self.y@,
            velocity_x: self.velocity_x@,
            velocity_y: self.velocity_y@,
        }
    }
}

impl Ball {
    /// A ball at (`x`, `y`) that moves by (`velocity_x`, `velocity_y`) each
    /// second.
    pub fn new(x: Fixed, y: Fixed, velocity_x: Fixed, velocity_y: Fixed) -> (r: Ball)
        ensures
            r@ == (BallView { x: x@, y: y@, velocity_x: velocity_x@, velocity_y: velocity_y@ }),
    {
        Ball { x, y, velocity_x, velocity_y }
    }

    /// The block that shows the ball.
    pub fn draw(&self) -> (r: Shape)
        ensures
            r@ == self@.shape(),
    {
        Shape::Block { color: Color::white(), x: self.x, y: self.y }
    }

    /// Puts the ball at (`x`, `y`).
    pub fn set_position(&mut self, x: Fixed, y: Fixed)
        ensures
            final(self)@ == old(self)@.with_position(x@, y@),
    {
        self.x = x;
        self.y = y;
    }

    /// Where the ball will be after `delta_time` seconds, if nothing stops
    /// it. The ball itself is left as it is.
    pub fn get_next_location(&self, delta_time: Fixed) -> (r: (Fixed, Fixed))
        ensures
            (r.0@, r.1@) == self@.next_location(delta_time@),
    {
        let distance_x = self.velocity_x.times(delta_time);
        let distance_y = self.velocity_y.times(delta_time);
        let new_x = self.x.plus(distance_x);
        let new_y = self.y.plus(distance_y);
        (new_x, new_y)
    }

    /// Reverses the vertical velocity.
    pub fn flip_velocity_y(&mut self)
        ensures
            final(self)@ == old(self)@.flip_y(),
    {
        self.velocity_y = self.velocity_y.negate();
    }

    /// Reverses the horizontal velocity.
    pub fn flip_velocity_x(&mut self)
        ensures
            final(self)@ == old(self)@.flip_x(),
    {
        self.velocity_x = self.velocity_x.negate();
    }

    /// Adds `factor` to the vertical velocity.
    pub fn increase_y(&mut self, factor: Fixed)
        ensures
            final(self)@ == old(self)@.increase_y(factor@),
    {
        self.velocity_y = self.velocity_y.plus(factor);
    }

    /// Horizontal velocity, in units per second.
    pub fn get_velocity_x(&self) -> (r: Fixed)
        ensures
            r@ == self@.velocity_x,
    {
        self.velocity_x
    }

    /// Vertical velocity, in units per second.
    pub fn get_velocity_y(&self) -> (r: Fixed)
        ensures
            r@ == self@.velocity_y,
    {
        self.velocity_y
    }

    /// Column of the ball.
    pub fn get_position_x(&self) -> (r: Fixed)
        ensures
            r@ == self@.x,
    {
        self.x
    }

    /// Height of the ball.
    pub fn get_position_y(&self) -> (r: Fixed)
        ensures
            r@ == self@.y,
    {
        self.y
    }

    /// Gives the ball the velocity (`velocity_x`, `velocity_y`).
    pub fn set_velocity(&mut self, velocity_x: Fixed, velocity_y: Fixed)
        ensures
            final(self)@ == old(self)@.with_velocity(velocity_x@, velocity_y@),
    {
        self.velocity_x = velocity_x;
        self.velocity_y = velocity_y;
    }

    /// The model of any ball has representable coordinates and velocities.
    pub proof fn lemma_view_bounds(self)
        ensures
            in_range(self@.x),
            in_range(self@.y),
            in_range(self@.velocity_x),
            in_range(self@.velocity_y),
    {
        self.x.lemma_in_range();
        self.y.lemma_in_range();
        self.velocity_x.lemma_in_range();
        self.velocity_y.lemma_in_range();
    }
}

/// Projecting the ball is a function of the ball and the time alone: equal
/// balls projected over equal times give equal places.
pub proof fn lemma_next_location_is_a_function(a: Ball, b: Ball, s: Fixed, t: Fixed)
    requires
        a@ == b@,
        s@ == t@,
    ensures
        a@.next_location(s@) == b@.next_location(t@),
{
}

/// Where nothing saturates, the projected place is the place plus velocity
/// times time, the product rounded down to a millionth.
pub proof fn lemma_next_location_without_saturation(ball: BallView, delta_time: int)
    requires
        in_range((ball.velocity_x * delta_time) / (SCALE as int)),
        in_range((ball.velocity_y * delta_time) / (SCALE as int)),
        in_range(ball.x + (ball.velocity_x * delta_time) / (SCALE as int)),
        in_range(ball.y + (ball.velocity_y * delta_time) / (SCALE as int)),
    ensures
        ball.next_location(delta_time) == (
            ball.x + (ball.velocity_x * delta_time) / (SCALE as int),
            ball.y + (ball.velocity_y * delta_time) / (SCALE as int),
        ),
{
}

/// Reversing a velocity component twice gives back the ball that was there
/// before; the two components are reversed independently of each other.
pub proof fn lemma_flip_twice_is_identity(ball: Ball)
    ensures
        ball@.flip_x().flip_x() == ball@,
        ball@.flip_y().flip_y() == ball@,
        ball@.flip_x().flip_y() == ball@.flip_y().flip_x(),
{
}

} // verus!
