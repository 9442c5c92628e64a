//! The structural side of a decoder-only Transformer: configuration checks,
//! the causal mask, head splitting, and the shape of every activation along
//! the forward pass. The numeric work runs on a tensor backend outside.
pub mod error;
pub mod dims;
pub mod mask;
pub mod layers;
pub mod mha;
pub mod feedforward;
pub mod transformer;
pub mod gpt;
