use vstd::prelude::*;

verus! {

/// A point on the display, in pixels.
#[derive(Clone, Copy, Debug, PartialEq, Eq, Structural)]
pub struct Point {
    pub x: i32,
    pub y: i32,
}

/// An axis-aligned rectangle: top-left corner and size.
#[derive(Clone, Copy, Debug, PartialEq, Eq, Structural)]
pub struct Rect {
    pub x: i32,
    pub y: i32,
    pub w: u32,
    pub h: u32,
}

#[derive(Clone, Copy, Debug, PartialEq, Eq, Structural)]
pub enum Alignment {
    Left,
    Center,
    Right,
}

/// A physical button of the console.
#[derive(Clone, Copy, Debug, PartialEq, Eq, Structural)]
pub enum Key {
    Up,
    Down,
    Left,
    Right,
    A,
    B,
    X,
    Y,
    Start,
    Select,
    L,
    R,
    Menu,
    Power,
}

/// A key event delivered by the host loop.
#[derive(Clone, Copy, Debug, PartialEq, Eq, Structural)]
pub enum KeyEvent {
    Pressed(Key),
    Released(Key),
    Autorepeat(Key),
}

/// The key that an event acts as: a press or an autorepeat of it.
pub open spec fn spec_acting_key(e: KeyEvent) -> Option<Key> {
    match e {
        KeyEvent::Pressed(k) => Some(k),
        KeyEvent::Autorepeat(k) => Some(k),
        KeyEvent::Released(_) => None,
    }
}

impl KeyEvent {
    pub fn acting_key(&self) -> (k: Option<Key>)
        ensures
            k == spec_acting_key(*self),
    {
        match *self {
            KeyEvent::Pressed(k) => Some(k),
            KeyEvent::Autorepeat(k) => Some(k),
            KeyEvent::Released(_) => None,
        }
    }
}

impl Point {
    pub fn new(x: i32, y: i32) -> (p: Point)
        ensures
            p == (Point { x, y }),
    {
        Point { x, y }
    }
}

impl Rect {
    pub fn new(x: i32, y: i32, w: u32, h: u32) -> (r: Rect)
        ensures
            r == (Rect { x, y, w, h }),
    {
        Rect { x, y, w, h }
    }
}

} // verus!
