use vstd::prelude::*;

use crate::dims::Dims;
use crate::error::ModelError;
use crate::layers::{Dense, Norm};
use crate::transformer::{TransformerBlock, TransformerBlockConfig, lemma_block_keeps_dims};

verus! {

/// Settings of the whole model: vocabulary, embedding width, longest context,
/// depth, heads per attention layer, and whether dense layers carry a bias.
#[derive(Clone, Copy, Debug, PartialEq, Eq, Structural)]
pub struct SimpleGptConfig {
    pub vocab_size: usize,
    pub emb_dim: usize,
    pub context_len: usize,
    pub n_layers: usize,
    pub n_heads: usize,
    pub bias: bool,
}

/// Token and position embeddings, a stack of blocks, a final normalization and
/// the projection to vocabulary logits.
#[derive(Clone, Debug)]
pub struct SimpleGptModel {
    pub vocab_size: usize,
    pub emb_dim: usize,
    pub context_len: usize,
    pub trf_blocks: Vec<TransformerBlock>,
    pub final_norm: Norm,
    pub out_head: Dense,
}

impl SimpleGptConfig {
    /// The given vocabulary and width, with a context of 256, 12 layers of 12 heads, and no bias.
    pub fn new(vocab_size: usize, emb_dim: usize) -> (r: Self)
        ensures
            r == (SimpleGptConfig { vocab_size, emb_dim, context_len: 256, n_layers: 12, n_heads: 12, bias: false }),
    {
        SimpleGptConfig { vocab_size, emb_dim, context_len: 256, n_layers: 12, n_heads: 12, bias: false }
    }

    /// Every size is positive and the embedding width splits evenly across the heads.
    pub open spec fn valid(&self) -> bool {
        &&& self.vocab_size > 0
        &&& self.emb_dim > 0
        &&& self.context_len > 0
        &&& self.n_layers > 0
        &&& self.n_heads > 0
        &&& self.emb_dim % self.n_heads == 0
    }

    /// The settings that every block of the stack is built from.
    pub open spec fn block(&self) -> TransformerBlockConfig {
        TransformerBlockConfig {
            d_in: self.emb_dim,
            d_out: self.emb_dim,
            context_len: self.context_len,
            num_heads: self.n_heads,
            bias: self.bias,
        }
    }

    /// Builds the model, or fails with a configuration error when the settings are not valid.
    pub fn init(&self) -> (r: Result<SimpleGptModel, ModelError>)
        ensures
            r is Ok <==> self.valid(),
            r is Err ==> r == Err::<SimpleGptModel, ModelError>(ModelError::Configuration),
            r matches Ok(m) ==> m.built_from(*self) && m.wf(),
    {
        if self.vocab_size == 0 || self.emb_dim == 0 || self.context_len == 0 || self.n_layers == 0
            || self.n_heads == 0 || self.emb_dim % self.n_heads != 0 {
            return Err(ModelError::Configuration);
        }
        let block_config = TransformerBlockConfig::new(
            self.emb_dim,
            self.emb_dim,
            self.context_len,
            self.n_heads,
            self.bias,
        );
        let mut trf_blocks: Vec<TransformerBlock> = Vec::new();
        let mut i: usize = 0;
        while i < self.n_layers
            invariant
                self.valid(),
                block_config == self.block(),
                i <= self.n_layers,
                trf_blocks@.len() == i,
                forall|k: int| 0 <= k < i ==> #[trigger] trf_blocks@[k].built_from(self.block()),
            decreases self.n_layers - i,
        {
            let block = match block_config.init() {
                Ok(b) => b,
                Err(e) => return Err(e),
            };
            trf_blocks.push(block);
            i = i + 1;
        }
        let m = SimpleGptModel {
            vocab_size: self.vocab_size,
            emb_dim: self.emb_dim,
            context_len: self.context_len,
            trf_blocks,
            final_norm: Norm::new(self.emb_dim),
            out_head: Dense::new(self.emb_dim, self.vocab_size, self.bias),
        };
        proof {
            lemma_built_model_wf(m, *self);
        }
        Ok(m)
    }
}

/// Every row of `tokens` has the length of the first.
pub open spec fn is_rectangular(tokens: Seq<Vec<usize>>) -> bool {
    forall|i: int| 0 <= i < tokens.len() ==> #[trigger] tokens[i]@.len() == tokens[0]@.len()
}

/// The sequence length of a batch of token rows; an empty batch has none.
pub open spec fn seq_len(tokens: Seq<Vec<usize>>) -> int {
    if tokens.len() == 0 {
        0
    } else {
        tokens[0]@.len() as int
    }
}

/// Every token id lies below `vocab_size`.
pub open spec fn ids_below(tokens: Seq<Vec<usize>>, vocab_size: int) -> bool {
    forall|i: int, j: int|
        0 <= i < tokens.len() && 0 <= j < tokens[i]@.len() ==> #[trigger] tokens[i]@[j] < vocab_size
}

/// The shape after the first `n` blocks of `blocks`, applied in order.
pub open spec fn dims_through(blocks: Seq<TransformerBlock>, n: int, x: Dims) -> Result<Dims, ModelError>
    decreases n,
{
    if n <= 0 {
        Ok(x)
    } else {
        match dims_through(blocks, n - 1, x) {
            Ok(y) => blocks[n - 1].spec_output_dims(y),
            Err(e) => Err(e),
        }
    }
}

impl SimpleGptModel {
    /// The model that `init` builds from `c`.
    pub open spec fn built_from(&self, c: SimpleGptConfig) -> bool {
        &&& self.vocab_size == c.vocab_size
        &&& self.emb_dim == c.emb_dim
        &&& self.context_len == c.context_len
        &&& self.trf_blocks@.len() == c.n_layers
        &&& forall|k: int| 0 <= k < c.n_layers ==> #[trigger] self.trf_blocks@[k].built_from(c.block())
        &&& self.final_norm.width == c.emb_dim
        &&& self.out_head == (Dense { d_in: c.emb_dim, d_out: c.vocab_size, bias: c.bias })
    }

    pub open spec fn wf(&self) -> bool {
        forall|k: int| 0 <= k < self.trf_blocks@.len() ==> (#[trigger] self.trf_blocks@[k]).att.wf()
    }

    /// A ragged batch is a shape error; a sequence longer than the context, or a
    /// token id outside the vocabulary, is out of range; otherwise the embedded
    /// batch `[batch, seq, emb_dim]` runs through the blocks in order, the final
    /// normalization and the output projection.
    pub open spec fn spec_output_dims(&self, tokens: Seq<Vec<usize>>) -> Result<Dims, ModelError> {
        if !is_rectangular(tokens) {
            Err(ModelError::ShapeMismatch)
        } else if seq_len(tokens) > self.context_len {
            Err(ModelError::OutOfRange)
        } else if !ids_below(tokens, self.vocab_size as int) {
            Err(ModelError::OutOfRange)
        } else {
            let x = Dims { batch: tokens.len() as usize, seq: seq_len(tokens) as usize, width: self.emb_dim };
            match dims_through(self.trf_blocks@, self.trf_blocks@.len() as int, x) {
                Err(e) => Err(e),
                Ok(y) => match self.final_norm.spec_output_dims(y) {
                    Err(e) => Err(e),
                    Ok(z) => self.out_head.spec_output_dims(z),
                },
            }
        }
    }

    /// Checks a batch of token rows against the model: the embedded shape
    /// `[batch, seq, emb_dim]`, or the error that `spec_output_dims` names.
    pub fn check_tokens(&self, tokens: &Vec<Vec<usize>>) -> (r: Result<Dims, ModelError>)
        ensures
            r is Ok <==> (is_rectangular(tokens@) && seq_len(tokens@) <= self.context_len
                && ids_below(tokens@, self.vocab_size as int)),
            r is Err ==> r == Err::<Dims, ModelError>(if !is_rectangular(tokens@) {
                ModelError::ShapeMismatch
            } else {
                ModelError::OutOfRange
            }),
            r matches Ok(d) ==> d == (Dims {
                batch: tokens@.len() as usize,
                seq: seq_len(tokens@) as usize,
                width: self.emb_dim,
            }),
    {
        let batch = tokens.len();
        let seq = if batch == 0 { 0 } else { tokens[0].len() };
        let mut i: usize = 0;
        while i < batch
            invariant
                batch == tokens@.len(),
                seq == seq_len(tokens@),
                i <= batch,
                forall|a: int| 0 <= a < i ==> #[trigger] tokens@[a]@.len() == seq,
            decreases batch - i,
        {
            if tokens[i].len() != seq {
                return Err(ModelError::ShapeMismatch);
            }
            i = i + 1;
        }
        if seq > self.context_len {
            return Err(ModelError::OutOfRange);
        }
        let mut i: usize = 0;
        while i < batch
            invariant
                batch == tokens@.len(),
                seq == seq_len(tokens@),
                is_rectangular(tokens@),
                i <= batch,
                forall|a: int, b: int|
                    0 <= a < i && 0 <= b < tokens@[a]@.len() ==> #[trigger] tokens@[a]@[b] < self.vocab_size,
            decreases batch - i,
        {
            let row = &tokens[i];
            assert(row@.len() == seq);
            let mut j: usize = 0;
            while j < seq
                invariant
                    batch == tokens@.len(),
                    i < batch,
                    is_rectangular(tokens@),
                    row@ == tokens@[i as int]@,
                    row@.len() == seq,
                    j <= seq,
                    forall|a: int, b: int|
                        0 <= a < i && 0 <= b < tokens@[a]@.len() ==> #[trigger] tokens@[a]@[b] < self.vocab_size,
                    forall|b: int| 0 <= b < j ==> #[trigger] row@[b] < self.vocab_size,
                decreases seq - j,
            {
                if row[j] >= self.vocab_size {
                    return Err(ModelError::OutOfRange);
                }
                j = j + 1;
            }
            i = i + 1;
        }
        Ok(Dims { batch, seq, width: self.emb_dim })
    }

    /// The shape of the logits for a batch of token rows, or the error that the batch meets first.
    pub fn output_dims(&self, tokens: &Vec<Vec<usize>>) -> (r: Result<Dims, ModelError>)
        requires
            self.wf(),
        ensures
            r == self.spec_output_dims(tokens@),
    {
        let x0 = match self.check_tokens(tokens) {
            Ok(d) => d,
            Err(e) => return Err(e),
        };
        let mut x = x0;
        let mut i: usize = 0;
        while i < self.trf_blocks.len()
            invariant
                self.wf(),
                is_rectangular(tokens@),
                seq_len(tokens@) <= self.context_len,
                ids_below(tokens@, self.vocab_size as int),
                x0 == (Dims { batch: tokens@.len() as usize, seq: seq_len(tokens@) as usize, width: self.emb_dim }),
                i <= self.trf_blocks@.len(),
                dims_through(self.trf_blocks@, i as int, x0) == Ok::<Dims, ModelError>(x),
            decreases self.trf_blocks@.len() - i,
        {
            x = match self.trf_blocks[i].output_dims(x) {
                Ok(d) => d,
                Err(e) => {
                    proof {
                        assert(dims_through(self.trf_blocks@, i as int + 1, x0) == Err::<Dims, ModelError>(e));
                        lemma_dims_through_err_stays(self.trf_blocks@, i as int + 1, self.trf_blocks@.len() as int, x0);
                    }
                    return Err(e);
                },
            };
            i = i + 1;
        }
        let z = match self.final_norm.output_dims(x) {
            Ok(d) => d,
            Err(e) => return Err(e),
        };
        self.out_head.output_dims(z)
    }

    /// The position indices `0, 1, ..., t - 1` that select rows of the positional embedding.
    pub fn position_indices(&self, t: usize) -> (r: Result<Vec<usize>, ModelError>)
        ensures
            r is Ok <==> t <= self.context_len,
            r is Err ==> r == Err::<Vec<usize>, ModelError>(ModelError::OutOfRange),
            r matches Ok(v) ==> v@.len() == t && forall|k: int| 0 <= k < t ==> #[trigger] v@[k] == k,
    {
        if t > self.context_len {
            return Err(ModelError::OutOfRange);
        }
        let mut v: Vec<usize> = Vec::new();
        let mut k: usize = 0;
        while k < t
            invariant
                k <= t,
                v@.len() == k,
                forall|a: int| 0 <= a < k ==> #[trigger] v@[a] == a,
            decreases t - k,
        {
            v.push(k);
            k = k + 1;
        }
        Ok(v)
    }
}

/// Once a block fails, the shape through any longer prefix fails the same way.
proof fn lemma_dims_through_err_stays(blocks: Seq<TransformerBlock>, n: int, m: int, x: Dims)
    requires
        n <= m,
        dims_through(blocks, n, x) is Err,
    ensures
        dims_through(blocks, m, x) == dims_through(blocks, n, x),
    decreases m - n,
{
    if n < m {
        lemma_dims_through_err_stays(blocks, n, m - 1, x);
    }
}

/// Blocks all built from one config with equal widths keep the shape of an
/// input of that width that fits in the context, however many there are.
proof fn lemma_blocks_keep_dims(blocks: Seq<TransformerBlock>, c: TransformerBlockConfig, n: int, x: Dims)
    requires
        0 <= n <= blocks.len(),
        forall|k: int| 0 <= k < blocks.len() ==> #[trigger] blocks[k].built_from(c),
        c.attention().valid(),
        c.d_in == c.d_out,
        x.width == c.d_in,
        x.seq <= c.context_len,
    ensures
        dims_through(blocks, n, x) == Ok::<Dims, ModelError>(x),
    decreases n,
{
    if n > 0 {
        lemma_blocks_keep_dims(blocks, c, n - 1, x);
        lemma_block_keeps_dims(blocks[n - 1], c, x);
    }
}

/// A model built from valid settings maps every rectangular batch of `batch`
/// rows of `seq <= context_len` in-vocabulary ids to logits of shape
/// `[batch, seq, vocab_size]`.
pub proof fn lemma_forward_shape(m: SimpleGptModel, c: SimpleGptConfig, tokens: Seq<Vec<usize>>)
    requires
        c.valid(),
        m.built_from(c),
        is_rectangular(tokens),
        seq_len(tokens) <= c.context_len,
        ids_below(tokens, c.vocab_size as int),
    ensures
        m.spec_output_dims(tokens) == Ok::<Dims, ModelError>(
            Dims { batch: tokens.len() as usize, seq: seq_len(tokens) as usize, width: c.vocab_size },
        ),
{
    let x = Dims { batch: tokens.len() as usize, seq: seq_len(tokens) as usize, width: m.emb_dim };
    assert(c.block().attention().valid()) by {
        assert(c.block().attention().d_out % c.block().attention().num_heads == c.emb_dim % c.n_heads);
    }
    lemma_blocks_keep_dims(m.trf_blocks@, c.block(), m.trf_blocks@.len() as int, x);
}

/// A model that `init` builds satisfies what `output_dims` needs of it.
proof fn lemma_built_model_wf(m: SimpleGptModel, c: SimpleGptConfig)
    requires
        m.built_from(c),
    ensures
        m.wf(),
{
    assert forall|k: int| 0 <= k < m.trf_blocks@.len() implies (#[trigger] m.trf_blocks@[k]).att.wf() by {
        assert(m.trf_blocks@[k].built_from(c.block()));
    }
}

/// In every attention layer of a model built from valid settings, the score
/// of query position `i` against key position `j` is blocked exactly when `j`
/// comes after `i`, for every pair of positions within the context.
pub proof fn lemma_model_attention_is_causal(m: SimpleGptModel, c: SimpleGptConfig, k: int, i: int, j: int)
    requires
        c.valid(),
        m.built_from(c),
        0 <= k < c.n_layers,
        0 <= i < c.context_len,
        0 <= j < c.context_len,
    ensures
        m.trf_blocks@[k].att.mask.size == c.context_len,
        m.trf_blocks@[k].att.mask.cell(i, j) <==> i < j,
{
    assert(m.trf_blocks@[k].built_from(c.block()));
}

} // verus!
