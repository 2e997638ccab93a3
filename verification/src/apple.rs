//! The item that the snake eats.
use crate::board::Position;
use crate::bracket::{new_generator, range_i32, red, to_cp437};
use crate::screen_representation::{RenderView, ScreenRepresentable, ScreenRepresentation};
use vstd::prelude::*;

verus! {

/// The item as the contracts see it: a cell of the integer grid.
pub struct AppleView {
    pub x: int,
    pub y: int,
}

impl AppleView {
    /// Whether the cell is one that a spawn on a `width` by `height` grid
    /// can give: both coordinates at least 1 and below the bound.
    pub open spec fn spawnable(self, width: int, height: int) -> bool {
        &&& 1 <= self.x < width
        &&& 1 <= self.y < height
    }

    /// How the item is drawn: an upward triangle in red at its cell.
    pub open spec fn render(self) -> RenderView {
        RenderView { glyph: 30, color: (255u8, 0u8, 0u8), x: self.x, y: self.y }
    }
}

/// The edible item.
#[derive(Clone, Copy, Debug)]
pub struct Apple {
    pub x_position: i32,
    pub y_position: i32,
}

impl View for Apple {
    type V = AppleView;

    open spec fn view(&self) -> AppleView {
        AppleView { x: self.x_position as int, y: self.y_position as int }
    }
}

impl Apple {
    /// An item at the given cell.
    pub fn new(x_position: i32, y_position: i32) -> (apple: Self)
        ensures
            apple@ == (AppleView { x: x_position as int, y: y_position as int }),
    {
        Apple { x_position, y_position }
    }

    /// An item at a random cell of a `width` by `height` grid, never in
    /// column 0 or row 0. Cells that the snake occupies are not avoided.
    pub fn spawn(width: i32, height: i32) -> (apple: Self)
        requires
            1 < width,
            1 < height,
        ensures
            apple@.spawnable(width as int, height as int),
    {
        let mut random = new_generator();
        let x_position: i32 = range_i32(&mut random, 1, width);
        let y_position: i32 = range_i32(&mut random, 1, height);

        Apple::new(x_position, y_position)
    }
}

impl Position for Apple {
    open spec fn x_position(&self) -> int {
        self@.x
    }

    open spec fn y_position(&self) -> int {
        self@.y
    }

    fn get_x_position(&self) -> (x: i32) {
        self.x_position
    }

    fn get_y_position(&self) -> (y: i32) {
        self.y_position
    }
}

impl ScreenRepresentable for Apple {
    open spec fn screen_view(&self) -> RenderView {
        self@.render()
    }

    fn get_screen_representation(&self) -> (representation: ScreenRepresentation) {
        return ScreenRepresentation::new(to_cp437('\u{25b2}'), red(), self);
    }
}

} // verus!
