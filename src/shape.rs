use vstd::prelude::*;

verus! {

/// The dimensions of a two-dimensional matrix: `rows` samples of `cols` features.
#[derive(Clone, Copy, Debug, PartialEq, Eq, Structural)]
pub struct Shape {
    pub rows: usize,
    pub cols: usize,
}

/// Shape of the product `a · b`, defined only when the inner dimensions agree.
pub open spec fn dot_of(a: Shape, b: Shape) -> Option<Shape> {
    if a.cols == b.rows {
        Some(Shape { rows: a.rows, cols: b.cols })
    } else {
        None
    }
}

/// Shape of `a` with a single row `row` added to each of its rows.
pub open spec fn broadcast_row_of(a: Shape, row: Shape) -> Option<Shape> {
    if row.rows == 1 && row.cols == a.cols {
        Some(a)
    } else {
        None
    }
}

impl Shape {
    pub fn new(rows: usize, cols: usize) -> (r: Shape)
        ensures
            r.rows == rows,
            r.cols == cols,
    {
        Shape { rows, cols }
    }

    pub open spec fn transposed(self) -> Shape {
        Shape { rows: self.cols, cols: self.rows }
    }

    /// Shape of the transposed matrix.
    pub fn transpose(&self) -> (r: Shape)
        ensures
            r == self.transposed(),
    {
        Shape { rows: self.cols, cols: self.rows }
    }

    /// Shape of the matrix product `self · other`, or `None` when the
    /// column count of `self` differs from the row count of `other`.
    pub fn dot(&self, other: &Shape) -> (r: Option<Shape>)
        ensures
            r == dot_of(*self, *other),
    {
        if self.cols == other.rows {
            Some(Shape { rows: self.rows, cols: other.cols })
        } else {
            None
        }
    }

    /// Shape of `self` with the single row `row` broadcast over each of its
    /// rows, or `None` when `row` is not one row of the same width.
    pub fn broadcast_row(&self, row: &Shape) -> (r: Option<Shape>)
        ensures
            r == broadcast_row_of(*self, *row),
    {
        if row.rows == 1 && row.cols == self.cols {
            Some(*self)
        } else {
            None
        }
    }
}

} // verus!
