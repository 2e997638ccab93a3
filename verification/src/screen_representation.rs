//! What the engine hands to a renderer: a glyph, a colour and a cell.
use crate::board::Position;
use bracket_lib::prelude::FontCharType;
use vstd::prelude::*;

verus! {

/// A drawable record as the contracts see it.
pub struct RenderView {
    pub glyph: u16,
    pub color: (u8, u8, u8),
    pub x: int,
    pub y: int,
}

/// A glyph in a colour at a grid cell.
pub struct ScreenRepresentation {
    pub glyph: FontCharType,
    pub color: (u8, u8, u8),
    pub x_position: i32,
    pub y_position: i32,
}

impl View for ScreenRepresentation {
    type V = RenderView;

    open spec fn view(&self) -> RenderView {
        RenderView {
            glyph: self.glyph,
            color: self.color,
            x: self.x_position as int,
            y: self.y_position as int,
        }
    }
}

impl ScreenRepresentation {
    /// The given glyph and colour at the cell where `position` stands.
    pub fn new(glyph: FontCharType, color: (u8, u8, u8), position: &impl Position) -> (representation: Self)
        ensures
            representation@ == (RenderView {
                glyph,
                color,
                x: position.x_position(),
                y: position.y_position(),
            }),
    {
        ScreenRepresentation {
            glyph,
            color,
            x_position: position.get_x_position(),
            y_position: position.get_y_position(),
        }
    }

    /// The glyph to draw.
    pub fn get_glyph(&self) -> (glyph: FontCharType)
        ensures
            glyph == self@.glyph,
    {
        return self.glyph;
    }

    /// The colour to draw it in, as red, green and blue.
    pub fn get_color(&self) -> (color: (u8, u8, u8))
        ensures
            color == self@.color,
    {
        return self.color;
    }
}

impl Position for ScreenRepresentation {
    open spec fn x_position(&self) -> int {
        self@.x
    }

    open spec fn y_position(&self) -> int {
        self@.y
    }

    fn get_x_position(&self) -> (x: i32) {
        return self.x_position;
    }

    fn get_y_position(&self) -> (y: i32) {
        return self.y_position;
    }
}

/// Something that can be drawn on the grid.
pub trait ScreenRepresentable {
    /// How the value is drawn.
    spec fn screen_view(&self) -> RenderView;

    /// The record that a renderer draws for this value.
    fn get_screen_representation(&self) -> (representation: ScreenRepresentation)
        ensures
            representation@ == self.screen_view(),
    ;
}

} // verus!
