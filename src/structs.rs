use vstd::prelude::*;

verus! {

/// A point in whole pixels.
#[derive(Debug, Clone, Copy, PartialEq, Eq, Hash, Structural)]
pub struct Position {
    pub x: i32,
    pub y: i32,
}

impl Position {
    /// The position made of what `f` returns for the coordinates.
    pub fn map<F>(self, f: F) -> (r: Position) where F: FnOnce(i32, i32) -> (i32, i32)
        requires
            f.requires((self.x, self.y)),
        ensures
            f.ensures((self.x, self.y), (r.x, r.y)),
    {
        let (x, y) = f(self.x, self.y);
        Position { x, y }
    }
}

impl From<(i32, i32)> for Position {
    fn from(p: (i32, i32)) -> (r: Position) {
        Position { x: p.0, y: p.1 }
    }
}

impl vstd::std_specs::convert::FromSpecImpl<(i32, i32)> for Position {
    open spec fn obeys_from_spec() -> bool {
        true
    }

    open spec fn from_spec(p: (i32, i32)) -> Position {
        Position { x: p.0, y: p.1 }
    }
}

/// A segment between two positions.
#[derive(Debug, Clone, Copy, PartialEq, Eq, Structural)]
pub struct Line {
    pub start: Position,
    pub end: Position,
}

/// A width and a height in whole pixels.
#[derive(Debug, Clone, Copy, PartialEq, Eq, Hash, Structural)]
pub struct Size {
    pub width: u32,
    pub height: u32,
}

impl From<(u32, u32)> for Size {
    fn from(s: (u32, u32)) -> (r: Size) {
        Size { width: s.0, height: s.1 }
    }
}

impl vstd::std_specs::convert::FromSpecImpl<(u32, u32)> for Size {
    open spec fn obeys_from_spec() -> bool {
        true
    }

    open spec fn from_spec(s: (u32, u32)) -> Size {
        Size { width: s.0, height: s.1 }
    }
}

/// An axis-aligned rectangle: its top-left corner and its size.
#[derive(Debug, Clone, Copy, PartialEq, Eq, Hash, Structural)]
pub struct Rectangle {
    pub position: Position,
    pub size: Size,
}

impl Rectangle {
    /// The rectangle with top-left corner `(x, y)` and the given size.
    pub fn new(x: i32, y: i32, width: u32, height: u32) -> (r: Rectangle)
        ensures
            r == (Rectangle { position: Position { x, y }, size: Size { width, height } }),
    {
        Rectangle { position: Position { x, y }, size: Size { width, height } }
    }

    /// The rectangle made of what `f` returns for the corner and the size.
    pub fn map<F>(self, f: F) -> (r: Rectangle) where F: FnOnce(i32, i32, u32, u32) -> (
        i32,
        i32,
        u32,
        u32,
    )
        requires
            f.requires((self.position.x, self.position.y, self.size.width, self.size.height)),
        ensures
            f.ensures(
                (self.position.x, self.position.y, self.size.width, self.size.height),
                (r.position.x, r.position.y, r.size.width, r.size.height),
            ),
    {
        let (x, y, width, height) = f(
            self.position.x,
            self.position.y,
            self.size.width,
            self.size.height,
        );
        Rectangle::new(x, y, width, height)
    }
}

/// A triangle given by its three corners.
#[derive(Debug, Clone, Copy, PartialEq, Eq, Structural)]
pub struct Triangle(pub Position, pub Position, pub Position);

} // verus!
