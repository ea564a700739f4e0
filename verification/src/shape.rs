//! Activation-tensor shapes and the errors of the shape algebra.

use vstd::prelude::*;

verus! {

/// One unit of dropout probability is split into this many parts: a dropout
/// rate is stored as a count of millionths, so a rate `r` stands for the
/// probability `r / DROPOUT_ONE`, and a valid rate lies in `[0, 1)`, that is
/// `r < DROPOUT_ONE`.
pub const DROPOUT_ONE: u32 = 1000000;

/// The shape of a rank-3 activation tensor `[batch, seq, embed]`:
/// a batch of token sequences, one embedding vector per token.
#[derive(Clone, Copy, Debug, PartialEq, Eq, Structural)]
pub struct Shape3 {
    pub batch: usize,
    pub seq: usize,
    pub embed: usize,
}

/// The shape of a rank-4 image tensor `[batch, channels, height, width]`
/// (channel-first spatial layout).
#[derive(Clone, Copy, Debug, PartialEq, Eq, Structural)]
pub struct Shape4 {
    pub batch: usize,
    pub channels: usize,
    pub height: usize,
    pub width: usize,
}

/// A shape mismatch detected by a forward pass. These are caller errors:
/// the shape algebra rejects the input instead of silently truncating.
#[derive(Clone, Copy, Debug, PartialEq, Eq, Structural)]
pub enum ShapeError {
    /// The last axis of the input does not match the layer's input width.
    DimMismatch { expected: usize, found: usize },
    /// A spatial extent is not divisible by the patch size, so the image
    /// cannot be split into whole patches.
    NotDivisible { extent: usize, divisor: usize },
    /// The sequence is longer than the positional-embedding table.
    SequenceTooLong { seq: usize, max: usize },
    /// Two operands of a residual addition differ in shape.
    ResidualMismatch,
}

/// An invalid configuration, rejected at construction time.
#[derive(Clone, Copy, Debug, PartialEq, Eq, Structural)]
pub enum ConfigError {
    /// A dimension or count that must be at least 1 is 0.
    ZeroDimension,
    /// The embedding dimension is not divisible by the number of heads.
    HeadsDoNotDivide,
    /// The embedding dimension is odd, so sine/cosine columns cannot pair up.
    OddEmbedding,
    /// The dropout rate is not in `[0, 1)`.
    DropoutOutOfRange,
}

/// A dropout rate is valid when it stands for a probability in `[0, 1)`.
pub open spec fn dropout_rate_valid(rate: u32) -> bool {
    rate < DROPOUT_ONE
}

} // verus!
