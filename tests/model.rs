use simple_gpt::dims::{Dims, HeadDims};
use simple_gpt::error::ModelError;
use simple_gpt::feedforward::FeedForwardConfig;
use simple_gpt::gpt::SimpleGptConfig;
use simple_gpt::layers::{Dense, Norm};
use simple_gpt::mask::CausalMask;
use simple_gpt::mha::MultiHeadAttentionConfig;
use simple_gpt::transformer::TransformerBlockConfig;

fn small_config() -> SimpleGptConfig {
    SimpleGptConfig { vocab_size: 100, emb_dim: 16, context_len: 8, n_layers: 2, n_heads: 2, bias: false }
}

#[test]
fn emb_dim_not_divisible_by_heads_is_a_configuration_error() {
    let mut c = SimpleGptConfig::new(50, 10);
    c.n_heads = 3;
    assert_eq!(c.init().err(), Some(ModelError::Configuration));
}

#[test]
fn emb_dim_divisible_by_heads_builds() {
    let mut c = SimpleGptConfig::new(50, 12);
    c.n_heads = 3;
    let m = c.init().unwrap();
    assert_eq!(m.trf_blocks.len(), 12);
    assert_eq!(m.trf_blocks[0].att.head_dim, 4);
    assert_eq!(m.trf_blocks[0].att.num_heads, 3);
}

#[test]
fn zero_sizes_are_configuration_errors() {
    let base = small_config();
    let mut c = base;
    c.vocab_size = 0;
    assert_eq!(c.init().err(), Some(ModelError::Configuration));
    let mut c = base;
    c.emb_dim = 0;
    assert_eq!(c.init().err(), Some(ModelError::Configuration));
    let mut c = base;
    c.context_len = 0;
    assert_eq!(c.init().err(), Some(ModelError::Configuration));
    let mut c = base;
    c.n_layers = 0;
    assert_eq!(c.init().err(), Some(ModelError::Configuration));
    let mut c = base;
    c.n_heads = 0;
    assert_eq!(c.init().err(), Some(ModelError::Configuration));
}

#[test]
fn config_defaults() {
    let c = SimpleGptConfig::new(50257, 768);
    assert_eq!(c.vocab_size, 50257);
    assert_eq!(c.emb_dim, 768);
    assert_eq!(c.context_len, 256);
    assert_eq!(c.n_layers, 12);
    assert_eq!(c.n_heads, 12);
    assert!(!c.bias);
}

#[test]
fn end_to_end_shape_and_causal_mask() {
    let m = small_config().init().unwrap();
    assert_eq!(m.trf_blocks.len(), 2);
    assert_eq!(m.out_head, Dense { d_in: 16, d_out: 100, bias: false });
    let tokens = vec![vec![3, 17, 42, 99, 0]];
    assert_eq!(m.output_dims(&tokens), Ok(Dims { batch: 1, seq: 5, width: 100 }));
    let varied = vec![vec![3, 17, 42, 99, 57]];
    assert_eq!(m.output_dims(&varied), Ok(Dims { batch: 1, seq: 5, width: 100 }));
    // no position before the last one can see the last key
    let mask = m.trf_blocks[0].att.mask_for(5).unwrap();
    assert_eq!(mask.size, 5);
    for i in 0..4 {
        assert!(mask.is_masked(i, 4));
    }
    assert!(!mask.is_masked(4, 4));
}

#[test]
fn forward_shape_for_each_length() {
    let m = small_config().init().unwrap();
    for t in 0..=8usize {
        let tokens = vec![vec![1usize; t]; 3];
        assert_eq!(m.output_dims(&tokens), Ok(Dims { batch: 3, seq: t, width: 100 }));
    }
    assert_eq!(m.output_dims(&vec![]), Ok(Dims { batch: 0, seq: 0, width: 100 }));
}

#[test]
fn sequence_longer_than_context_is_out_of_range() {
    let m = small_config().init().unwrap();
    let tokens = vec![vec![1usize; 9]];
    assert_eq!(m.output_dims(&tokens), Err(ModelError::OutOfRange));
}

#[test]
fn token_outside_vocabulary_is_out_of_range() {
    let m = small_config().init().unwrap();
    assert_eq!(m.output_dims(&vec![vec![1, 2, 100]]), Err(ModelError::OutOfRange));
    assert_eq!(m.output_dims(&vec![vec![1, 2, 99]]), Ok(Dims { batch: 1, seq: 3, width: 100 }));
}

#[test]
fn ragged_batch_is_a_shape_error() {
    let m = small_config().init().unwrap();
    assert_eq!(m.output_dims(&vec![vec![1, 2, 3], vec![1, 2]]), Err(ModelError::ShapeMismatch));
    assert_eq!(m.check_tokens(&vec![vec![1, 2], vec![3, 4]]), Ok(Dims { batch: 2, seq: 2, width: 16 }));
}

#[test]
fn position_indices_count_up_from_zero() {
    let m = small_config().init().unwrap();
    assert_eq!(m.position_indices(5), Ok(vec![0, 1, 2, 3, 4]));
    assert_eq!(m.position_indices(0), Ok(vec![]));
    assert_eq!(m.position_indices(8).unwrap().len(), 8);
    assert_eq!(m.position_indices(9), Err(ModelError::OutOfRange));
}

#[test]
fn causal_mask_is_strictly_upper_triangular() {
    let m = CausalMask::new(4);
    assert_eq!(m.size, 4);
    let expected = vec![
        vec![false, true, true, true],
        vec![false, false, true, true],
        vec![false, false, false, true],
        vec![false, false, false, false],
    ];
    assert_eq!(m.cells, expected);
    let s = m.slice(2);
    assert_eq!(s.cells, vec![vec![false, true], vec![false, false]]);
    assert_eq!(CausalMask::new(0).cells.len(), 0);
}

#[test]
fn attention_init_and_head_indexing() {
    assert_eq!(MultiHeadAttentionConfig::new(12, 10, 8, 3, false).init().err(), Some(ModelError::Configuration));
    let a = MultiHeadAttentionConfig::new(6, 12, 8, 3, true).init().unwrap();
    assert_eq!(a.head_dim, 4);
    assert_eq!(a.w_query, Dense { d_in: 6, d_out: 12, bias: true });
    assert_eq!(a.out_proj, Dense { d_in: 12, d_out: 12, bias: true });
    assert_eq!(a.head_of(0), (0, 0));
    assert_eq!(a.head_of(5), (1, 1));
    assert_eq!(a.head_of(11), (2, 3));
    assert_eq!(a.feature_of(2, 3), 11);
    assert_eq!(a.feature_of(1, 0), 4);
    for f in 0..12usize {
        let (h, k) = a.head_of(f);
        assert_eq!(a.feature_of(h, k), f);
    }
    let x = Dims::new(2, 5, 6);
    assert_eq!(a.split_dims(x), HeadDims { batch: 2, heads: 3, seq: 5, head_dim: 4 });
    assert_eq!(a.merge_dims(a.split_dims(x)), Dims::new(2, 5, 12));
    assert_eq!(a.output_dims(x), Ok(Dims { batch: 2, seq: 5, width: 12 }));
    assert_eq!(a.output_dims(Dims::new(2, 5, 7)), Err(ModelError::ShapeMismatch));
    assert_eq!(a.output_dims(Dims::new(2, 9, 6)), Err(ModelError::OutOfRange));
    assert_eq!(a.mask_for(9).err(), Some(ModelError::OutOfRange));
}

#[test]
fn block_keeps_shape() {
    let b = TransformerBlockConfig::new(8, 8, 4, 2, false).init().unwrap();
    assert_eq!(b.output_dims(Dims::new(3, 4, 8)), Ok(Dims::new(3, 4, 8)));
    assert_eq!(b.output_dims(Dims::new(3, 4, 6)), Err(ModelError::ShapeMismatch));
    assert_eq!(b.output_dims(Dims::new(3, 5, 8)), Err(ModelError::OutOfRange));
    assert_eq!(TransformerBlockConfig::new(8, 8, 4, 3, false).init().err(), Some(ModelError::Configuration));
    // widths that differ cannot be added back onto the input
    let wide = TransformerBlockConfig::new(8, 12, 4, 2, false).init().unwrap();
    assert_eq!(wide.output_dims(Dims::new(1, 2, 8)), Err(ModelError::ShapeMismatch));
}

#[test]
fn feed_forward_and_layer_shapes() {
    let ff = FeedForwardConfig::new(16, 16).init();
    assert_eq!(ff.output_dims(Dims::new(1, 3, 16)), Ok(Dims::new(1, 3, 16)));
    assert_eq!(ff.output_dims(Dims::new(1, 3, 15)), Err(ModelError::ShapeMismatch));
    let uneven = FeedForwardConfig::new(8, 16).init();
    assert_eq!(uneven.input_layer, Dense { d_in: 8, d_out: 16, bias: true });
    assert_eq!(uneven.output_layer, Dense { d_in: 16, d_out: 16, bias: true });
    assert_eq!(uneven.output_dims(Dims::new(1, 3, 8)), Ok(Dims::new(1, 3, 16)));
    assert_eq!(uneven.output_dims(Dims::new(1, 3, 16)), Err(ModelError::ShapeMismatch));
    assert_eq!(Dense::new(4, 9, false).output_dims(Dims::new(2, 3, 4)), Ok(Dims::new(2, 3, 9)));
    assert_eq!(Dense::new(4, 9, false).output_dims(Dims::new(2, 3, 5)), Err(ModelError::ShapeMismatch));
    assert_eq!(Norm::new(4).output_dims(Dims::new(2, 3, 4)), Ok(Dims::new(2, 3, 4)));
    assert_eq!(Norm::new(4).output_dims(Dims::new(2, 3, 5)), Err(ModelError::ShapeMismatch));
}

#[test]
fn every_attention_layer_masks_exactly_later_keys() {
    let m = small_config().init().unwrap();
    for block in &m.trf_blocks {
        let mask = &block.att.mask;
        assert_eq!(mask.size, 8);
        for i in 0..8 {
            for j in 0..8 {
                assert_eq!(mask.is_masked(i, j), j > i);
            }
        }
        for t in 0..=8usize {
            let s = block.att.mask_for(t).unwrap();
            assert_eq!(s.size, t);
            for i in 0..t {
                for j in 0..t {
                    assert_eq!(s.cells[i][j], j > i);
                }
            }
        }
    }
}
