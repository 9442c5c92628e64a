use vstd::prelude::*;

use crate::dims::Dims;
use crate::error::ModelError;
use crate::feedforward::{FeedForward, FeedForwardConfig};
use crate::layers::{Dense, Norm};
use crate::mha::{MultiHeadAttention, MultiHeadAttentionConfig};

verus! {

/// Settings of one pre-norm transformer block.
#[derive(Clone, Copy, Debug, PartialEq, Eq, Structural)]
pub struct TransformerBlockConfig {
    pub d_in: usize,
    pub d_out: usize,
    pub context_len: usize,
    pub num_heads: usize,
    pub bias: bool,
}

/// `x + attention(norm1(x))`, then `x + feed_forward(norm2(x))`.
#[derive(Clone, Debug)]
pub struct TransformerBlock {
    pub att: MultiHeadAttention,
    pub ff: FeedForward,
    pub norm1: Norm,
    pub norm2: Norm,
}

impl TransformerBlockConfig {
    pub fn new(d_in: usize, d_out: usize, context_len: usize, num_heads: usize, bias: bool) -> (r: Self)
        ensures
            r == (TransformerBlockConfig { d_in, d_out, context_len, num_heads, bias }),
    {
        TransformerBlockConfig { d_in, d_out, context_len, num_heads, bias }
    }

    /// The settings of the block's attention layer.
    pub open spec fn attention(&self) -> MultiHeadAttentionConfig {
        MultiHeadAttentionConfig {
            d_in: self.d_in,
            d_out: self.d_out,
            context_length: self.context_len,
            num_heads: self.num_heads,
            qkv_bias: self.bias,
        }
    }

    /// Builds the block; fails with a configuration error exactly when its attention settings are not valid.
    pub fn init(&self) -> (r: Result<TransformerBlock, ModelError>)
        ensures
            r is Ok <==> self.attention().valid(),
            r is Err ==> r == Err::<TransformerBlock, ModelError>(ModelError::Configuration),
            r matches Ok(b) ==> b.built_from(*self),
    {
        let att = match MultiHeadAttentionConfig::new(
            self.d_in,
            self.d_out,
            self.context_len,
            self.num_heads,
            self.bias,
        ).init() {
            Ok(a) => a,
            Err(e) => return Err(e),
        };
        Ok(TransformerBlock {
            att,
            ff: FeedForwardConfig::new(self.d_in, self.d_out).init(),
            norm1: Norm::new(self.d_in),
            norm2: Norm::new(self.d_in),
        })
    }
}

impl TransformerBlock {
    /// The block that `init` builds from `c`.
    pub open spec fn built_from(&self, c: TransformerBlockConfig) -> bool {
        &&& self.att.built_from(c.attention())
        &&& self.ff.input_layer == (Dense { d_in: c.d_in, d_out: c.d_out, bias: true })
        &&& self.ff.output_layer == (Dense { d_in: c.d_out, d_out: c.d_out, bias: true })
        &&& self.norm1.width == c.d_in
        &&& self.norm2.width == c.d_in
    }

    /// Each sublayer's shape in turn; a residual sum of two different shapes is a shape error.
    pub open spec fn spec_output_dims(&self, x: Dims) -> Result<Dims, ModelError> {
        match self.norm1.spec_output_dims(x) {
            Err(e) => Err(e),
            Ok(h) => match self.att.spec_output_dims(h) {
                Err(e) => Err(e),
                Ok(a) => if a != x {
                    Err(ModelError::ShapeMismatch)
                } else {
                    match self.norm2.spec_output_dims(x) {
                        Err(e) => Err(e),
                        Ok(h2) => match self.ff.spec_output_dims(h2) {
                            Err(e) => Err(e),
                            Ok(f) => if f != x {
                                Err(ModelError::ShapeMismatch)
                            } else {
                                Ok(x)
                            },
                        },
                    }
                },
            },
        }
    }

    /// The shape of the block's output for input of shape `x`.
    pub fn output_dims(&self, x: Dims) -> (r: Result<Dims, ModelError>)
        requires
            self.att.wf(),
        ensures
            r == self.spec_output_dims(x),
    {
        let shortcut = x;
        let h = match self.norm1.output_dims(x) {
            Ok(d) => d,
            Err(e) => return Err(e),
        };
        let a = match self.att.output_dims(h) {
            Ok(d) => d,
            Err(e) => return Err(e),
        };
        if a != shortcut {
            return Err(ModelError::ShapeMismatch);
        }
        let shortcut = a;
        let h2 = match self.norm2.output_dims(a) {
            Ok(d) => d,
            Err(e) => return Err(e),
        };
        let f = match self.ff.output_dims(h2) {
            Ok(d) => d,
            Err(e) => return Err(e),
        };
        if f != shortcut {
            return Err(ModelError::ShapeMismatch);
        }
        Ok(f)
    }
}

/// A block built from valid settings whose input and output widths agree keeps
/// the shape of any input of that width that fits in its context; an input of
/// another width is a shape error, and a longer sequence is out of range.
pub proof fn lemma_block_keeps_dims(b: TransformerBlock, c: TransformerBlockConfig, x: Dims)
    requires
        b.built_from(c),
        c.attention().valid(),
        c.d_in == c.d_out,
    ensures
        b.spec_output_dims(x) == if x.width != c.d_in {
            Err::<Dims, ModelError>(ModelError::ShapeMismatch)
        } else if x.seq > c.context_len {
            Err(ModelError::OutOfRange)
        } else {
            Ok(x)
        },
{
    vstd::arithmetic::div_mod::lemma_fundamental_div_mod(c.d_out as int, c.num_heads as int);
    assert(b.att.width() == c.d_out);
}

} // verus!
