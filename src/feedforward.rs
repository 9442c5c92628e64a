use vstd::prelude::*;

use crate::dims::Dims;
use crate::error::ModelError;
use crate::layers::Dense;

verus! {

/// Settings of the position-wise feed-forward sublayer.
#[derive(Clone, Copy, Debug, PartialEq, Eq, Structural)]
pub struct FeedForwardConfig {
    pub hidden_size: usize,
    pub out_size: usize,
}

/// Two dense projections with a GELU activation between them.
#[derive(Clone, Copy, Debug, PartialEq, Eq, Structural)]
pub struct FeedForward {
    pub input_layer: Dense,
    pub output_layer: Dense,
}

impl FeedForwardConfig {
    pub fn new(hidden_size: usize, out_size: usize) -> (r: Self)
        ensures
            r == (FeedForwardConfig { hidden_size, out_size }),
    {
        FeedForwardConfig { hidden_size, out_size }
    }

    /// The first projection maps `hidden_size` input features to `out_size`,
    /// and the second takes those `out_size` features to `out_size`; both carry a bias.
    pub fn init(&self) -> (r: FeedForward)
        ensures
            r.input_layer == (Dense { d_in: self.hidden_size, d_out: self.out_size, bias: true }),
            r.output_layer == (Dense { d_in: self.out_size, d_out: self.out_size, bias: true }),
            r.output_layer.d_in == r.input_layer.d_out,
    {
        FeedForward {
            input_layer: Dense::new(self.hidden_size, self.out_size, true),
            output_layer: Dense::new(self.out_size, self.out_size, true),
        }
    }
}

impl FeedForward {
    pub open spec fn spec_output_dims(self, x: Dims) -> Result<Dims, ModelError> {
        match self.input_layer.spec_output_dims(x) {
            Ok(h) => self.output_layer.spec_output_dims(h),
            Err(e) => Err(e),
        }
    }

    /// The shape after both projections; the activation keeps the shape.
    pub fn output_dims(&self, x: Dims) -> (r: Result<Dims, ModelError>)
        ensures
            r == self.spec_output_dims(x),
            self.output_layer.d_in == self.input_layer.d_out ==> r == if x.width == self.input_layer.d_in {
                Ok::<Dims, ModelError>(x.with_width(self.output_layer.d_out))
            } else {
                Err(ModelError::ShapeMismatch)
            },
    {
        match self.input_layer.output_dims(x) {
            Ok(h) => self.output_layer.output_dims(h),
            Err(e) => Err(e),
        }
    }
}

} // verus!
