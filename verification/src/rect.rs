use vstd::prelude::*;

verus! {

/// One window's placement: a position and a size in output-local
/// coordinates, with the origin at the top-left corner of the output.
#[derive(Clone, Copy, Debug, PartialEq, Eq, Structural)]
pub struct Rectangle {
    pub x: i32,
    pub y: i32,
    pub width: u32,
    pub height: u32,
}

/// The mathematical shadow of a [`Rectangle`]: the same four fields as
/// unbounded integers, so contracts can speak of geometry without
/// machine-width arithmetic.
pub ghost struct RectShape {
    pub x: int,
    pub y: int,
    pub width: int,
    pub height: int,
}

impl View for Rectangle {
    type V = RectShape;

    open spec fn view(&self) -> RectShape {
        RectShape {
            x: self.x as int,
            y: self.y as int,
            width: self.width as int,
            height: self.height as int,
        }
    }
}

/// The answer to one placement request: a name identifying the engine
/// and the output, and one rectangle per placed window, main window
/// first, then the left column top to bottom, then the right column.
#[derive(Debug, PartialEq)]
pub struct GeneratedLayout {
    pub layout_name: String,
    pub views: Vec<Rectangle>,
}

/// The shapes of a rectangle sequence, element by element.
pub open spec fn shapes_of(views: Seq<Rectangle>) -> Seq<RectShape> {
    views.map_values(|r: Rectangle| r@)
}

} // verus!
