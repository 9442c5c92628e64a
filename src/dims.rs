use vstd::prelude::*;

verus! {

/// The shape `[batch, seq, width]` of an activation tensor.
#[derive(Clone, Copy, Debug, PartialEq, Eq, Structural)]
pub struct Dims {
    pub batch: usize,
    pub seq: usize,
    pub width: usize,
}

impl Dims {
    pub fn new(batch: usize, seq: usize, width: usize) -> (r: Dims)
        ensures
            r.batch == batch,
            r.seq == seq,
            r.width == width,
    {
        Dims { batch, seq, width }
    }

    /// The same batch and sequence, with another feature width.
    pub open spec fn with_width(self, width: usize) -> Dims {
        Dims { batch: self.batch, seq: self.seq, width }
    }
}

/// The shape `[batch, heads, seq, head_dim]` of a tensor split across heads.
#[derive(Clone, Copy, Debug, PartialEq, Eq, Structural)]
pub struct HeadDims {
    pub batch: usize,
    pub heads: usize,
    pub seq: usize,
    pub head_dim: usize,
}

} // verus!
