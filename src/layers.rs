use vstd::prelude::*;

use crate::dims::Dims;
use crate::error::ModelError;

verus! {

/// A dense (linear) layer, seen by its widths: it maps `[.., d_in]` to `[.., d_out]`.
#[derive(Clone, Copy, Debug, PartialEq, Eq, Structural)]
pub struct Dense {
    pub d_in: usize,
    pub d_out: usize,
    pub bias: bool,
}

impl Dense {
    pub fn new(d_in: usize, d_out: usize, bias: bool) -> (r: Dense)
        ensures
            r == (Dense { d_in, d_out, bias }),
    {
        Dense { d_in, d_out, bias }
    }

    pub open spec fn spec_output_dims(self, x: Dims) -> Result<Dims, ModelError> {
        if x.width == self.d_in {
            Ok(x.with_width(self.d_out))
        } else {
            Err(ModelError::ShapeMismatch)
        }
    }

    /// The shape of the projection of `x`; a width other than `d_in` is a shape error.
    pub fn output_dims(&self, x: Dims) -> (r: Result<Dims, ModelError>)
        ensures
            r == self.spec_output_dims(x),
    {
        if x.width == self.d_in {
            Ok(Dims { batch: x.batch, seq: x.seq, width: self.d_out })
        } else {
            Err(ModelError::ShapeMismatch)
        }
    }
}

/// A layer normalization over a trailing dimension of `width` features.
#[derive(Clone, Copy, Debug, PartialEq, Eq, Structural)]
pub struct Norm {
    pub width: usize,
}

impl Norm {
    pub fn new(width: usize) -> (r: Norm)
        ensures
            r.width == width,
    {
        Norm { width }
    }

    pub open spec fn spec_output_dims(self, x: Dims) -> Result<Dims, ModelError> {
        if x.width == self.width {
            Ok(x)
        } else {
            Err(ModelError::ShapeMismatch)
        }
    }

    /// Normalization keeps the shape; it fails only on a trailing dimension of another size.
    pub fn output_dims(&self, x: Dims) -> (r: Result<Dims, ModelError>)
        ensures
            r == self.spec_output_dims(x),
    {
        if x.width == self.width {
            Ok(x)
        } else {
            Err(ModelError::ShapeMismatch)
        }
    }
}

} // verus!
