//! Shape calculus for a Vision Transformer encoder.
//!
//! The model is a stack of components (patch embedding, sinusoidal positional
//! embedding, multi-head self-attention, transformer encoder blocks, pooler)
//! whose correctness hinges on exact tensor-shape algebra: every layer
//! either preserves the `[batch, seq, embed]` shape or transforms it in a
//! precisely stated way, and residual additions require shapes to agree
//! exactly. This crate states and verifies that algebra. The numeric tensor
//! engine itself (matrix multiply, convolution, softmax) is out of scope
//! here and is driven by unverified glue around this library.

pub mod layers;
pub mod model;
pub mod shape;
