//! A single steered unit on the grid, without a body.
use crate::apple::Apple;
use crate::snake::{Direction, SegmentView};
use vstd::prelude::*;

verus! {

/// Something that stands on a cell of the grid and can be compared with
/// other such things by cell.
pub trait PositionInSpace {
    /// The column of the cell.
    spec fn x_in_space(&self) -> int;

    /// The row of the cell.
    spec fn y_in_space(&self) -> int;

    /// The column of the cell.
    fn get_x_position(&self) -> (x: i32)
        ensures
            x == self.x_in_space(),
    ;

    /// The row of the cell.
    fn get_y_position(&self) -> (y: i32)
        ensures
            y == self.y_in_space(),
    ;
}

/// Whether the two stand on the same cell.
pub fn is_at_same_position_as(this: &impl PositionInSpace, other: &impl PositionInSpace) -> (same:
    bool)
    ensures
        same == (this.x_in_space() == other.x_in_space() && this.y_in_space()
            == other.y_in_space()),
{
    this.get_x_position() == other.get_x_position() && this.get_y_position()
        == other.get_y_position()
}

/// The steered unit: a cell and a facing.
#[derive(Clone, Copy, Debug)]
pub struct Player {
    pub x_position: i32,
    pub y_position: i32,
    pub facing: Direction,
}

impl View for Player {
    type V = SegmentView;

    open spec fn view(&self) -> SegmentView {
        SegmentView { x: self.x_position as int, y: self.y_position as int, facing: self.facing }
    }
}

impl Player {
    /// A player at the given cell, facing down.
    pub fn new(x_position: i32, y_position: i32) -> (player: Self)
        ensures
            player@ == (SegmentView {
                x: x_position as int,
                y: y_position as int,
                facing: Direction::Down,
            }),
    {
        Player { x_position, y_position, facing: Direction::Down }
    }

    /// Replaces the facing, whatever it was; the player does not move.
    pub fn change_facing(&mut self, new_direction: Direction)
        ensures
            final(self)@ == old(self)@.turned(new_direction),
    {
        self.facing = new_direction;
    }

    /// Moves the player one cell along its facing. The cell moved to has to
    /// have coordinates that an `i32` can hold.
    pub fn move_forward(&mut self)
        requires
            old(self)@.advanced().fits(),
        ensures
            final(self)@ == old(self)@.advanced(),
    {
        match self.facing {
            Direction::Up => self.y_position -= 1,
            Direction::Down => self.y_position += 1,
            Direction::Left => self.x_position -= 1,
            Direction::Right => self.x_position += 1,
        }
    }

    /// Whether `move_forward` may be called: the next cell along the facing
    /// has coordinates that an `i32` can hold.
    pub fn can_move_forward(&self) -> (ok: bool)
        ensures
            ok == self@.advanced().fits(),
    {
        match self.facing {
            Direction::Up => self.y_position > i32::MIN,
            Direction::Down => self.y_position < i32::MAX,
            Direction::Left => self.x_position > i32::MIN,
            Direction::Right => self.x_position < i32::MAX,
        }
    }
}

impl PositionInSpace for Player {
    open spec fn x_in_space(&self) -> int {
        self@.x
    }

    open spec fn y_in_space(&self) -> int {
        self@.y
    }

    fn get_x_position(&self) -> (x: i32) {
        self.x_position
    }

    fn get_y_position(&self) -> (y: i32) {
        self.y_position
    }
}

impl PositionInSpace for Apple {
    open spec fn x_in_space(&self) -> int {
        self@.x
    }

    open spec fn y_in_space(&self) -> int {
        self@.y
    }

    fn get_x_position(&self) -> (x: i32) {
        self.x_position
    }

    fn get_y_position(&self) -> (y: i32) {
        self.y_position
    }
}

} // verus!
