use vstd::prelude::*;

pub mod linux_impl;

verus! {

/// Placeholder image handle used by backends that draw nothing themselves.
pub struct Image;

/// An integer rectangle, as the native widget API reports icon bounds.
pub struct Rectangle {
    x: i32,
    y: i32,
    width: i32,
    height: i32,
}

impl Rectangle {
    pub closed spec fn spec_x(&self) -> i32 {
        self.x
    }

    pub closed spec fn spec_y(&self) -> i32 {
        self.y
    }

    pub closed spec fn spec_width(&self) -> i32 {
        self.width
    }

    pub closed spec fn spec_height(&self) -> i32 {
        self.height
    }

    pub fn new(x: i32, y: i32, width: i32, height: i32) -> (r: Rectangle)
        ensures
            r.spec_x() == x,
            r.spec_y() == y,
            r.spec_width() == width,
            r.spec_height() == height,
    {
        Rectangle { x, y, width, height }
    }

    pub fn get_x(&self) -> (v: i32)
        ensures
            v == self.spec_x(),
    {
        self.x
    }

    pub fn get_y(&self) -> (v: i32)
        ensures
            v == self.spec_y(),
    {
        self.y
    }

    pub fn get_width(&self) -> (v: i32)
        ensures
            v == self.spec_width(),
    {
        self.width
    }

    pub fn get_height(&self) -> (v: i32)
        ensures
            v == self.spec_height(),
    {
        self.height
    }
}

} // verus!
