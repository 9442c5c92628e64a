use vstd::prelude::*;

use crate::dims::{Dims, HeadDims};
use crate::error::ModelError;
use crate::layers::Dense;
use crate::mask::CausalMask;

verus! {

/// Settings of a causal multi-head self-attention layer.
#[derive(Clone, Copy, Debug, PartialEq, Eq, Structural)]
pub struct MultiHeadAttentionConfig {
    pub d_in: usize,
    pub d_out: usize,
    pub context_length: usize,
    pub num_heads: usize,
    pub qkv_bias: bool,
}

/// A causal multi-head self-attention layer: three input projections, the mask
/// over `context_length` positions, and the output projection.
#[derive(Clone, Debug)]
pub struct MultiHeadAttention {
    pub w_query: Dense,
    pub w_key: Dense,
    pub w_value: Dense,
    pub out_proj: Dense,
    pub mask: CausalMask,
    pub num_heads: usize,
    pub head_dim: usize,
}

impl MultiHeadAttentionConfig {
    pub fn new(d_in: usize, d_out: usize, context_length: usize, num_heads: usize, qkv_bias: bool) -> (r: Self)
        ensures
            r == (MultiHeadAttentionConfig { d_in, d_out, context_length, num_heads, qkv_bias }),
    {
        MultiHeadAttentionConfig { d_in, d_out, context_length, num_heads, qkv_bias }
    }

    /// Every size is positive and the output width splits evenly across the heads.
    pub open spec fn valid(&self) -> bool {
        &&& self.d_in > 0
        &&& self.d_out > 0
        &&& self.context_length > 0
        &&& self.num_heads > 0
        &&& self.d_out % self.num_heads == 0
    }

    /// Builds the layer, or fails with a configuration error when the settings are not valid.
    pub fn init(&self) -> (r: Result<MultiHeadAttention, ModelError>)
        ensures
            r is Ok <==> self.valid(),
            r is Err ==> r == Err::<MultiHeadAttention, ModelError>(ModelError::Configuration),
            r matches Ok(a) ==> a.built_from(*self),
    {
        if self.d_in == 0 || self.d_out == 0 || self.context_length == 0 || self.num_heads == 0
            || self.d_out % self.num_heads != 0 {
            return Err(ModelError::Configuration);
        }
        let head_dim = self.d_out / self.num_heads;
        proof {
            vstd::arithmetic::div_mod::lemma_fundamental_div_mod(self.d_out as int, self.num_heads as int);
            assert(head_dim > 0) by (nonlinear_arith)
                requires
                    self.d_out == self.num_heads * head_dim,
                    self.d_out > 0,
                    self.num_heads > 0,
            ;
        }
        Ok(MultiHeadAttention {
            w_query: Dense::new(self.d_in, self.d_out, self.qkv_bias),
            w_key: Dense::new(self.d_in, self.d_out, self.qkv_bias),
            w_value: Dense::new(self.d_in, self.d_out, self.qkv_bias),
            out_proj: Dense::new(self.d_out, self.d_out, true),
            mask: CausalMask::new(self.context_length),
            num_heads: self.num_heads,
            head_dim,
        })
    }
}

impl MultiHeadAttention {
    /// The merged width of all heads.
    pub open spec fn width(&self) -> int {
        self.num_heads * self.head_dim
    }

    pub open spec fn wf(&self) -> bool {
        &&& self.mask.wf()
        &&& self.num_heads > 0
        &&& self.head_dim > 0
        &&& self.w_query.d_out == self.width()
        &&& self.w_key.d_in == self.w_query.d_in
        &&& self.w_key.d_out == self.width()
        &&& self.w_value.d_in == self.w_query.d_in
        &&& self.w_value.d_out == self.width()
        &&& self.out_proj.d_in == self.width()
        &&& self.out_proj.d_out == self.width()
    }

    /// The layer that `init` builds from `c`.
    pub open spec fn built_from(&self, c: MultiHeadAttentionConfig) -> bool {
        &&& self.wf()
        &&& self.num_heads == c.num_heads
        &&& self.head_dim == c.d_out / c.num_heads
        &&& self.w_query == (Dense { d_in: c.d_in, d_out: c.d_out, bias: c.qkv_bias })
        &&& self.w_key == (Dense { d_in: c.d_in, d_out: c.d_out, bias: c.qkv_bias })
        &&& self.w_value == (Dense { d_in: c.d_in, d_out: c.d_out, bias: c.qkv_bias })
        &&& self.out_proj == (Dense { d_in: c.d_out, d_out: c.d_out, bias: true })
        &&& self.mask.size == c.context_length
    }

    /// Input of the wrong width is a shape error; a sequence longer than the
    /// mask is out of range; otherwise the output keeps batch and sequence and
    /// has the merged width of the heads.
    pub open spec fn spec_output_dims(&self, x: Dims) -> Result<Dims, ModelError> {
        if x.width != self.w_query.d_in {
            Err(ModelError::ShapeMismatch)
        } else if x.seq > self.mask.size {
            Err(ModelError::OutOfRange)
        } else {
            Ok(x.with_width(self.out_proj.d_out))
        }
    }

    /// The shape `[batch, heads, seq, head_dim]` that the projections of `x`
    /// take once reshaped and transposed for the per-head products.
    pub fn split_dims(&self, x: Dims) -> (r: HeadDims)
        ensures
            r == (HeadDims { batch: x.batch, heads: self.num_heads, seq: x.seq, head_dim: self.head_dim }),
    {
        HeadDims { batch: x.batch, heads: self.num_heads, seq: x.seq, head_dim: self.head_dim }
    }

    /// The shape `[batch, seq, heads * head_dim]` of per-head results once
    /// transposed back and merged.
    pub fn merge_dims(&self, h: HeadDims) -> (r: Dims)
        requires
            self.wf(),
            h.heads == self.num_heads,
            h.head_dim == self.head_dim,
        ensures
            r == (Dims { batch: h.batch, seq: h.seq, width: self.width() as usize }),
    {
        Dims { batch: h.batch, seq: h.seq, width: h.heads * h.head_dim }
    }

    /// The head and the offset within it that merged feature `f` belongs to.
    pub fn head_of(&self, f: usize) -> (r: (usize, usize))
        requires
            self.wf(),
            f < self.width(),
        ensures
            r.0 < self.num_heads,
            r.1 < self.head_dim,
            f == r.0 * self.head_dim + r.1,
    {
        let h = f / self.head_dim;
        let k = f % self.head_dim;
        proof {
            lemma_head_split_round_trip(*self, f as int, 0, 0);
        }
        (h, k)
    }

    /// The merged feature that offset `k` of head `h` lands on.
    pub fn feature_of(&self, h: usize, k: usize) -> (r: usize)
        requires
            self.wf(),
            h < self.num_heads,
            k < self.head_dim,
        ensures
            r == h * self.head_dim + k,
            r < self.width(),
    {
        proof {
            assert(h * self.head_dim + k < self.num_heads * self.head_dim) by (nonlinear_arith)
                requires
                    h < self.num_heads,
                    k < self.head_dim,
            ;
        }
        h * self.head_dim + k
    }

    /// The mask for a call over `t` positions: the leading corner of the stored
    /// mask, or out of range when `t` exceeds the context length.
    pub fn mask_for(&self, t: usize) -> (r: Result<CausalMask, ModelError>)
        requires
            self.wf(),
        ensures
            r is Ok <==> t <= self.mask.size,
            r is Err ==> r == Err::<CausalMask, ModelError>(ModelError::OutOfRange),
            r matches Ok(m) ==> m.wf() && m.size == t && forall|i: int, j: int|
                0 <= i < t && 0 <= j < t ==> #[trigger] m.cell(i, j) == (j > i),
    {
        if t > self.mask.size {
            return Err(ModelError::OutOfRange);
        }
        Ok(self.mask.slice(t))
    }

    /// The shape of the attention output for input of shape `x`.
    pub fn output_dims(&self, x: Dims) -> (r: Result<Dims, ModelError>)
        requires
            self.wf(),
        ensures
            r == self.spec_output_dims(x),
    {
        let queries = match self.w_query.output_dims(x) {
            Ok(d) => d,
            Err(e) => return Err(e),
        };
        match self.w_key.output_dims(x) {
            Ok(_) => {},
            Err(e) => return Err(e),
        }
        let values = match self.w_value.output_dims(x) {
            Ok(d) => d,
            Err(e) => return Err(e),
        };
        if x.seq > self.mask.size {
            return Err(ModelError::OutOfRange);
        }
        let q = self.split_dims(queries);
        let v = self.split_dims(values);
        // the scores of q against the keys are [b, h, t, t]; weighting v gives [b, h, t, head_dim]
        let context = HeadDims { batch: q.batch, heads: q.heads, seq: q.seq, head_dim: v.head_dim };
        let merged = self.merge_dims(context);
        self.out_proj.output_dims(merged)
    }
}

/// Splitting a feature into its head and offset, then merging them back,
/// gives the same feature; and the other way round.
pub proof fn lemma_head_split_round_trip(a: MultiHeadAttention, f: int, h: int, k: int)
    requires
        a.wf(),
        0 <= f < a.width(),
        0 <= h < a.num_heads,
        0 <= k < a.head_dim,
    ensures
        (f / a.head_dim as int) * a.head_dim + f % (a.head_dim as int) == f,
        0 <= f / (a.head_dim as int) < a.num_heads,
        (h * a.head_dim + k) / (a.head_dim as int) == h,
        (h * a.head_dim + k) % (a.head_dim as int) == k,
{
    let d = a.head_dim as int;
    vstd::arithmetic::div_mod::lemma_fundamental_div_mod(f, d);
    vstd::arithmetic::div_mod::lemma_div_pos_is_pos(f, d);
    vstd::arithmetic::div_mod::lemma_div_by_multiple_is_strongly_ordered(f, a.width(), a.num_heads as int, d);
    vstd::arithmetic::div_mod::lemma_div_multiples_vanish(a.num_heads as int, d);
    vstd::arithmetic::div_mod::lemma_fundamental_div_mod_converse(h * d + k, d, h, k);
}

} // verus!
