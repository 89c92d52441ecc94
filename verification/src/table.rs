//! Two-dimensional calibration maps (VE, spark advance) indexed by two
//! breakpoint axes.

use vstd::prelude::*;

verus! {

/// Errors of table lookups.
#[derive(Debug, Clone, Copy, PartialEq, Eq, Structural)]
pub enum MathError {
    OutOfBounds,
}

/// A lookup table: breakpoints along two axes and one value per pair of
/// breakpoints, `data[x][y]`.
pub struct Table3D<T, const X_SIZE: usize, const Y_SIZE: usize> {
    pub x_axis: [T; X_SIZE],
    pub y_axis: [T; Y_SIZE],
    pub data: [[T; Y_SIZE]; X_SIZE],
}

impl<T: Copy + Default, const X_SIZE: usize, const Y_SIZE: usize> Table3D<T, X_SIZE, Y_SIZE> {
    /// Both axes hold `d` at every breakpoint.
    pub open spec fn axes_filled_with(&self, d: T) -> bool {
        &&& forall|i: int| 0 <= i < X_SIZE ==> self.x_axis@[i] == d
        &&& forall|j: int| 0 <= j < Y_SIZE ==> self.y_axis@[j] == d
    }

    /// Every value of the table is `d`.
    pub open spec fn data_filled_with(&self, d: T) -> bool {
        forall|i: int, j: int| 0 <= i < X_SIZE && 0 <= j < Y_SIZE ==> self.data@[i]@[j] == d
    }

    /// A table whose axes and values are all the default value of `T`.
    pub fn new() -> (t: Self)
        ensures
            exists|d: T| call_ensures(T::default, (), d) && t.axes_filled_with(d) && t.data_filled_with(d),
    {
        let d = T::default();
        let row: [T; Y_SIZE] = [d; Y_SIZE];
        let t = Table3D { x_axis: [d; X_SIZE], y_axis: [d; Y_SIZE], data: [row; X_SIZE] };
        assert(t.axes_filled_with(d));
        assert(t.data_filled_with(d));
        t
    }

    /// A table holding `data`, with both axes at the default value of `T`.
    pub fn new_from_data(data: [[T; Y_SIZE]; X_SIZE]) -> (t: Self)
        ensures
            t.data == data,
            exists|d: T| call_ensures(T::default, (), d) && t.axes_filled_with(d),
    {
        let d = T::default();
        let t = Table3D { x_axis: [d; X_SIZE], y_axis: [d; Y_SIZE], data };
        assert(t.axes_filled_with(d));
        t
    }
}

} // verus!
