use vstd::prelude::*;

use crate::color::Color;

verus! {

/// The payload of an edited setting.
#[derive(Clone, Copy, Debug, PartialEq, Eq, Structural)]
pub enum Value {
    Bool(bool),
    Int(i32),
    Color(Color),
}

impl Value {
    pub fn as_bool(&self) -> (r: Option<bool>)
        ensures
            r == (match *self {
                Value::Bool(b) => Some(b),
                _ => None,
            }),
    {
        match *self {
            Value::Bool(b) => Some(b),
            _ => None,
        }
    }

    pub fn as_int(&self) -> (r: Option<i32>)
        ensures
            r == (match *self {
                Value::Int(i) => Some(i),
                _ => None,
            }),
    {
        match *self {
            Value::Int(i) => Some(i),
            _ => None,
        }
    }

    pub fn as_color(&self) -> (r: Option<Color>)
        ensures
            r == (match *self {
                Value::Color(c) => Some(c),
                _ => None,
            }),
    {
        match *self {
            Value::Color(c) => Some(c),
            _ => None,
        }
    }
}

} // verus!
