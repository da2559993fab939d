use vstd::prelude::*;

verus! {

/// An integer point, as stored in asset descriptions.
#[derive(Clone, Copy, Debug, PartialEq, Eq)]
pub struct Position {
    pub x: i32,
    pub y: i32,
}

/// A width and a height in pixels.
#[derive(Clone, Copy, Debug, PartialEq, Eq)]
pub struct Dimension {
    pub width: i32,
    pub height: i32,
}

/// An axis-aligned rectangle given by its size and its top-left corner.
#[derive(Clone, Copy, Debug, PartialEq, Eq)]
pub struct Rectangle {
    pub size: Dimension,
    pub position: Position,
}

/// A circle given by its radius and its centre.
#[derive(Clone, Copy, Debug, PartialEq, Eq)]
pub struct Circle {
    pub radius: u16,
    pub position: Position,
}

} // verus!
