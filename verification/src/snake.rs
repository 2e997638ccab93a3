//! Directions and the segments that the snake is made of.
use crate::board::Position;
use crate::bracket::{green, to_cp437};
use crate::screen_representation::{RenderView, ScreenRepresentable, ScreenRepresentation};
use bracket_lib::prelude::VirtualKeyCode;
use vstd::prelude::*;

verus! {

/// One of the four grid directions a segment can face.
#[derive(Clone, Copy, PartialEq, Eq, Structural, Debug)]
pub enum Direction {
    Up,
    Down,
    Left,
    Right,
}

impl Direction {
    /// Horizontal component of the unit step along this direction.
    pub open spec fn dx(self) -> int {
        match self {
            Direction::Left => -1,
            Direction::Right => 1,
            _ => 0,
        }
    }

    /// Vertical component of the unit step along this direction. The grid's
    /// `y` axis points down the screen.
    pub open spec fn dy(self) -> int {
        match self {
            Direction::Up => -1,
            Direction::Down => 1,
            _ => 0,
        }
    }

    /// What an optional key press means as a direction.
    pub open spec fn of_key(key_code: Option<VirtualKeyCode>) -> Option<Direction> {
        match key_code {
            Some(VirtualKeyCode::Up) => Some(Direction::Up),
            Some(VirtualKeyCode::Down) => Some(Direction::Down),
            Some(VirtualKeyCode::Left) => Some(Direction::Left),
            Some(VirtualKeyCode::Right) => Some(Direction::Right),
            _ => None,
        }
    }

    /// Decodes a key press: the four arrow keys give their direction, any
    /// other key and no key give nothing.
    pub fn from_key_code(key_code: Option<VirtualKeyCode>) -> (direction: Option<Direction>)
        ensures
            direction == Direction::of_key(key_code),
    {
        match key_code {
            Some(VirtualKeyCode::Up) => Some(Direction::Up),
            Some(VirtualKeyCode::Down) => Some(Direction::Down),
            Some(VirtualKeyCode::Left) => Some(Direction::Left),
            Some(VirtualKeyCode::Right) => Some(Direction::Right),
            _ => None,
        }
    }
}

/// A segment as the contracts see it: a cell of the unbounded integer grid
/// and a facing.
pub struct SegmentView {
    pub x: int,
    pub y: int,
    pub facing: Direction,
}

impl SegmentView {
    /// The segment with its facing replaced; it stays where it is.
    pub open spec fn turned(self, direction: Direction) -> SegmentView {
        SegmentView { facing: direction, ..self }
    }

    /// The segment one cell further along its facing.
    pub open spec fn advanced(self) -> SegmentView {
        SegmentView { x: self.x + self.facing.dx(), y: self.y + self.facing.dy(), ..self }
    }

    /// Whether both coordinates can be held in an `i32`.
    pub open spec fn fits(self) -> bool {
        &&& i32::MIN <= self.x <= i32::MAX
        &&& i32::MIN <= self.y <= i32::MAX
    }

    /// Whether the segment stands on the given cell.
    pub open spec fn is_at(self, x: int, y: int) -> bool {
        self.x == x && self.y == y
    }

    /// How a segment is drawn: the `'@'` glyph in green at its cell.
    pub open spec fn render(self) -> RenderView {
        RenderView { glyph: 64, color: (0u8, 255u8, 0u8), x: self.x, y: self.y }
    }
}

/// The head or a body segment of the snake.
#[derive(Clone, Copy, Debug)]
pub struct SnakeNode {
    pub x_position: i32,
    pub y_position: i32,
    pub facing: Direction,
}

impl View for SnakeNode {
    type V = SegmentView;

    open spec fn view(&self) -> SegmentView {
        SegmentView { x: self.x_position as int, y: self.y_position as int, facing: self.facing }
    }
}

impl SnakeNode {
    /// A segment at the given cell, facing down.
    pub fn new(x_position: i32, y_position: i32) -> (node: Self)
        ensures
            node@ == (SegmentView { x: x_position as int, y: y_position as int, facing: Direction::Down }),
    {
        SnakeNode { x_position, y_position, facing: Direction::Down }
    }

    /// Replaces the facing, whatever it was; the segment does not move.
    pub fn change_facing(&mut self, new_direction: Direction)
        ensures
            final(self)@ == old(self)@.turned(new_direction),
    {
        self.facing = new_direction;
    }

    /// The current facing. The segment is left as it was.
    pub fn get_facing(&mut self) -> (facing: Direction)
        ensures
            facing == old(self)@.facing,
            *final(self) == *old(self),
    {
        return self.facing;
    }

    /// Moves the segment one cell along its facing. The cell moved to has to
    /// have coordinates that an `i32` can hold.
    pub fn move_forward(&mut self)
        requires
            old(self)@.advanced().fits(),
        ensures
            final(self)@ == old(self)@.advanced(),
    {
        match self.facing {
            Direction::Up => self.y_position -= 1,
            Direction::Down => self.y_position += 1,
            Direction::Left => self.x_position -= 1,
            Direction::Right => self.x_position += 1,
        }
    }

    /// Whether `move_forward` may be called: the next cell along the facing
    /// has coordinates that an `i32` can hold.
    pub fn can_move_forward(&self) -> (ok: bool)
        ensures
            ok == self@.advanced().fits(),
    {
        match self.facing {
            Direction::Up => self.y_position > i32::MIN,
            Direction::Down => self.y_position < i32::MAX,
            Direction::Left => self.x_position > i32::MIN,
            Direction::Right => self.x_position < i32::MAX,
        }
    }
}

impl Position for SnakeNode {
    open spec fn x_position(&self) -> int {
        self@.x
    }

    open spec fn y_position(&self) -> int {
        self@.y
    }

    fn get_x_position(&self) -> (x: i32) {
        self.x_position
    }

    fn get_y_position(&self) -> (y: i32) {
        self.y_position
    }
}

impl ScreenRepresentable for SnakeNode {
    open spec fn screen_view(&self) -> RenderView {
        self@.render()
    }

    fn get_screen_representation(&self) -> (representation: ScreenRepresentation) {
        return ScreenRepresentation::new(to_cp437('@'), green(), self);
    }
}

/// Turning a segment and then advancing it moves it by the unit step of the
/// new facing, whatever it faced before, and leaves it facing that way.
pub proof fn lemma_turn_then_advance(segment: SegmentView, direction: Direction)
    ensures
        segment.turned(direction).advanced() == (SegmentView {
            x: segment.x + direction.dx(),
            y: segment.y + direction.dy(),
            facing: direction,
        }),
        segment.turned(direction).x == segment.x,
        segment.turned(direction).y == segment.y,
        (direction.dx() == 0 && (direction.dy() == 1 || direction.dy() == -1))
            || (direction.dy() == 0 && (direction.dx() == 1 || direction.dx() == -1)),
{
}

} // verus!
