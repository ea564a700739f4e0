//! Single-head scaled dot-product attention.
//!
//! The head projects its input to query, key and value tensors through three
//! independent affine maps, forms the attention-weight matrix
//! `softmax(Q K^T / sqrt(head_dim))`, and applies it to the values. No mask
//! is used: attention is fully bidirectional over all positions. The shape
//! algebra proved here: an input `[B, S, E]` yields `[B, S, head_dim]`, and
//! any other input width is rejected.

use vstd::prelude::*;

use crate::shape::{dropout_rate_valid, ConfigError, Shape3, ShapeError};
use crate::layers::primitives::{matmul, matmul_spec, softmax, transpose_last, Dropout, Linear};

verus! {

/// One attention head: three independent projections from the embedding
/// width to the head width, and a dropout policy.
#[derive(Clone, Copy, Debug)]
pub struct SelfAttention {
    pub query: Linear,
    pub key: Linear,
    pub value: Linear,
    pub dropout: Dropout,
}

/// Configuration of one attention head.
#[derive(Clone, Copy, Debug)]
pub struct SelfAttentionConfig {
    pub head_dim: usize,
    pub embedding_dim: usize,
    /// Dropout rate in millionths; must lie in `[0, 1)`.
    pub dropout: u32,
}

/// Which configurations are accepted, and the error each rejected one gets.
pub open spec fn self_attention_config_check(c: SelfAttentionConfig) -> Result<(), ConfigError> {
    if c.head_dim < 1 || c.embedding_dim < 1 {
        Err(ConfigError::ZeroDimension)
    } else if !dropout_rate_valid(c.dropout) {
        Err(ConfigError::DropoutOutOfRange)
    } else {
        Ok(())
    }
}

/// The head a valid configuration builds: query, key and value projections
/// all map `embedding_dim` to `head_dim` but carry independent weights.
pub open spec fn self_attention_from_config(c: SelfAttentionConfig) -> SelfAttention {
    SelfAttention {
        query: Linear { d_input: c.embedding_dim, d_output: c.head_dim },
        key: Linear { d_input: c.embedding_dim, d_output: c.head_dim },
        value: Linear { d_input: c.embedding_dim, d_output: c.head_dim },
        dropout: Dropout { rate: c.dropout },
    }
}

pub open spec fn self_attention_init_spec(c: SelfAttentionConfig) -> Result<
    SelfAttention,
    ConfigError,
> {
    match self_attention_config_check(c) {
        Ok(()) => Ok(self_attention_from_config(c)),
        Err(e) => Err(e),
    }
}

impl SelfAttentionConfig {
    pub fn init(&self) -> (r: Result<SelfAttention, ConfigError>)
        ensures
            r == self_attention_init_spec(*self),
            r is Ok ==> r->Ok_0.wf(),
    {
        if self.head_dim < 1 || self.embedding_dim < 1 {
            Err(ConfigError::ZeroDimension)
        } else if self.dropout >= crate::shape::DROPOUT_ONE {
            Err(ConfigError::DropoutOutOfRange)
        } else {
            Ok(
                SelfAttention {
                    query: Linear { d_input: self.embedding_dim, d_output: self.head_dim },
                    key: Linear { d_input: self.embedding_dim, d_output: self.head_dim },
                    value: Linear { d_input: self.embedding_dim, d_output: self.head_dim },
                    dropout: Dropout { rate: self.dropout },
                },
            )
        }
    }
}

/// What a forward pass returns: `[B, S, E]` maps to `[B, S, head_dim]`;
/// an input whose last axis is not the head's embedding width is rejected.
pub open spec fn self_attention_forward_spec(a: SelfAttention, x: Shape3) -> Result<
    Shape3,
    ShapeError,
> {
    if x.embed == a.query.d_input {
        Ok(Shape3 { batch: x.batch, seq: x.seq, embed: a.query.d_output })
    } else {
        Err(ShapeError::DimMismatch { expected: a.query.d_input, found: x.embed })
    }
}

impl SelfAttention {
    /// The embedding width the head consumes.
    pub open spec fn embedding_dim_spec(self) -> usize {
        self.query.d_input
    }

    /// The width of the head's output vectors.
    pub open spec fn head_dim_spec(self) -> usize {
        self.query.d_output
    }

    /// The three projections agree on input and output widths (while their
    /// weights stay independent), and the dropout rate is a probability.
    pub open spec fn wf(self) -> bool {
        &&& self.query.wf()
        &&& self.key == (Linear { d_input: self.query.d_input, d_output: self.query.d_output })
        &&& self.value == (Linear { d_input: self.query.d_input, d_output: self.query.d_output })
        &&& self.dropout.wf()
    }

    /// Scaled dot-product attention. The body mirrors the data flow of the
    /// computation: the intermediate attention-weight matrix `Q K^T` has
    /// shape `[B, S, S]`, is scaled and row-softmaxed (shape-preserving),
    /// and is applied to the values to give `[B, S, head_dim]`.
    pub fn forward(self, inputs: Shape3) -> (r: Result<Shape3, ShapeError>)
        requires
            self.wf(),
        ensures
            r == self_attention_forward_spec(self, inputs),
    {
        let q = match self.query.forward(inputs) {
            Ok(s) => s,
            Err(e) => {
                return Err(e);
            },
        };
        let k = match self.key.forward(inputs) {
            Ok(s) => s,
            Err(e) => {
                return Err(e);
            },
        };
        let v = match self.value.forward(inputs) {
            Ok(s) => s,
            Err(e) => {
                return Err(e);
            },
        };
        // Attention logits Q K^T: [B, S, head_dim] x [B, head_dim, S] -> [B, S, S].
        let logits = match matmul(q, transpose_last(k)) {
            Ok(s) => s,
            Err(e) => {
                return Err(e);
            },
        };
        // Scaling by 1/sqrt(head_dim) and the stabilized row softmax keep the shape.
        let weights = softmax(logits);
        // Weighted values: [B, S, S] x [B, S, head_dim] -> [B, S, head_dim].
        let out = match matmul(weights, v) {
            Ok(s) => s,
            Err(e) => {
                return Err(e);
            },
        };
        Ok(out)
    }
}

/// On an accepted input the attention-weight matrix `Q K^T` is square over
/// the sequence: `[B, S, S]`, one row per target position over all source
/// positions. The row softmax then normalizes each of those rows into a
/// probability distribution over the `S` source positions; the
/// normalization itself is the engine's numeric work, but the matrix it
/// acts on is pinned here.
pub proof fn lemma_attention_weights_square(a: SelfAttention, x: Shape3)
    requires
        a.wf(),
        x.embed == a.embedding_dim_spec(),
    ensures
        ({
            let q = Shape3 { batch: x.batch, seq: x.seq, embed: a.head_dim_spec() };
            let kt = Shape3 { batch: x.batch, seq: a.head_dim_spec(), embed: x.seq };
            matmul_spec(q, kt) == Ok::<Shape3, ShapeError>(
                Shape3 { batch: x.batch, seq: x.seq, embed: x.seq },
            )
        }),
{
}

} // verus!
