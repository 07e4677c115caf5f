//! A small generic two-component vector, used for plain pairs such as grid
//! coordinates and screen positions.

use vstd::prelude::*;

verus! {

/// A plain two-component vector.
#[derive(Clone, Debug)]
pub struct Vector2<T> {
    pub x: T,
    pub y: T,
}

impl<T> Vector2<T> {
    pub fn new(x: T, y: T) -> (r: Self)
        ensures
            r == (Vector2 { x, y }),
    {
        Self { x, y }
    }
}

impl<T: core::default::Default> core::default::Default for Vector2<T> {
    /// Both components take their type's default value.
    fn default() -> (r: Self)
        ensures
            call_ensures(T::default, (), r.x),
            call_ensures(T::default, (), r.y),
    {
        Self { x: T::default(), y: T::default() }
    }
}

impl<T> core::convert::From<(T, T)> for Vector2<T> {
    fn from(pair: (T, T)) -> (r: Self) {
        let (x, y) = pair;
        Self { x, y }
    }
}

impl<T> vstd::std_specs::convert::FromSpecImpl<(T, T)> for Vector2<T> {
    open spec fn obeys_from_spec() -> bool {
        true
    }

    open spec fn from_spec(pair: (T, T)) -> Self {
        Vector2 { x: pair.0, y: pair.1 }
    }
}

impl<T> core::convert::From<Vector2<T>> for (T, T) {
    fn from(vector: Vector2<T>) -> (r: Self) {
        (vector.x, vector.y)
    }
}

impl<T> vstd::std_specs::convert::FromSpecImpl<Vector2<T>> for (T, T) {
    open spec fn obeys_from_spec() -> bool {
        true
    }

    open spec fn from_spec(vector: Vector2<T>) -> Self {
        (vector.x, vector.y)
    }
}

} // verus!
