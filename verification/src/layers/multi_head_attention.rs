//! Multi-head self-attention.
//!
//! `num_heads` independent attention heads consume the same `[B, S, E]`
//! input, each producing `[B, S, head_dim]`; the head outputs are
//! concatenated along the last axis and must reconstruct exactly the
//! embedding width, which forces `num_heads * head_dim == E`. One learned
//! `E -> E` projection and dropout follow. The concatenation arithmetic is
//! the proof obligation here: the loop invariant tracks the concatenated
//! width head by head.

use vstd::prelude::*;

use crate::shape::{dropout_rate_valid, ConfigError, Shape3, ShapeError, DROPOUT_ONE};
use crate::layers::attention::{
    self_attention_forward_spec, self_attention_from_config, SelfAttention, SelfAttentionConfig,
};
use crate::layers::primitives::{Dropout, Linear};
use vstd::arithmetic::mul::{lemma_mul_inequality, lemma_mul_is_distributive_add_other_way};

verus! {

/// An ordered collection of independent attention heads, the output
/// projection, and a dropout policy. Heads share no parameters.
#[derive(Clone, Debug)]
pub struct MultiHeadAttention {
    pub self_attn: Vec<SelfAttention>,
    pub output: Linear,
    pub dropout: Dropout,
}

/// Configuration of a multi-head attention layer.
#[derive(Clone, Copy, Debug)]
pub struct MultiHeadAttentionConfig {
    pub num_heads: usize,
    pub embedding_dim: usize,
    pub head_dim: usize,
    /// Dropout rate in millionths; must lie in `[0, 1)`.
    pub dropout: u32,
}

/// Which configurations are accepted: every count at least 1, the heads
/// jointly covering the embedding width exactly, and a dropout rate in
/// `[0, 1)`.
pub open spec fn mha_config_check(c: MultiHeadAttentionConfig) -> Result<(), ConfigError> {
    if c.num_heads < 1 || c.embedding_dim < 1 || c.head_dim < 1 {
        Err(ConfigError::ZeroDimension)
    } else if c.num_heads * c.head_dim != c.embedding_dim {
        Err(ConfigError::HeadsDoNotDivide)
    } else if !dropout_rate_valid(c.dropout) {
        Err(ConfigError::DropoutOutOfRange)
    } else {
        Ok(())
    }
}

/// The per-head configuration a multi-head configuration induces: each head
/// reads the full embedding width and projects to the head width.
pub open spec fn mha_head_config(c: MultiHeadAttentionConfig) -> SelfAttentionConfig {
    SelfAttentionConfig {
        head_dim: c.head_dim,
        embedding_dim: c.embedding_dim,
        dropout: c.dropout,
    }
}

/// The layer a valid configuration builds: `num_heads` identically shaped
/// (but independently weighted) heads, an `E -> E` output projection, and
/// the dropout policy.
pub open spec fn mha_built_from(m: MultiHeadAttention, c: MultiHeadAttentionConfig) -> bool {
    &&& m.self_attn@.len() == c.num_heads
    &&& forall|i: int|
        0 <= i < c.num_heads ==> m.self_attn@[i] == self_attention_from_config(mha_head_config(c))
    &&& m.output == (Linear { d_input: c.embedding_dim, d_output: c.embedding_dim })
    &&& m.dropout == (Dropout { rate: c.dropout })
}

impl MultiHeadAttentionConfig {
    pub fn init(&self) -> (r: Result<MultiHeadAttention, ConfigError>)
        ensures
            r is Ok <==> mha_config_check(*self) is Ok,
            r matches Err(e) ==> mha_config_check(*self) == Err::<(), ConfigError>(e),
            r matches Ok(m) ==> mha_built_from(m, *self) && m.wf(),
    {
        if self.num_heads < 1 || self.embedding_dim < 1 || self.head_dim < 1 {
            return Err(ConfigError::ZeroDimension);
        }
        if self.embedding_dim / self.num_heads != self.head_dim
            || self.embedding_dim % self.num_heads != 0 {
            proof {
                if self.num_heads * self.head_dim == self.embedding_dim {
                    vstd::arithmetic::div_mod::lemma_fundamental_div_mod_converse(
                        self.embedding_dim as int,
                        self.num_heads as int,
                        self.head_dim as int,
                        0,
                    );
                }
            }
            return Err(ConfigError::HeadsDoNotDivide);
        }
        proof {
            vstd::arithmetic::div_mod::lemma_fundamental_div_mod(
                self.embedding_dim as int,
                self.num_heads as int,
            );
        }
        if self.dropout >= DROPOUT_ONE {
            return Err(ConfigError::DropoutOutOfRange);
        }
        let head_cfg = SelfAttentionConfig {
            head_dim: self.head_dim,
            embedding_dim: self.embedding_dim,
            dropout: self.dropout,
        };
        let mut attns: Vec<SelfAttention> = Vec::new();
        let mut i: usize = 0;
        while i < self.num_heads
            invariant
                i <= self.num_heads,
                attns@.len() == i,
                forall|j: int|
                    0 <= j < i ==> attns@[j] == self_attention_from_config(
                        mha_head_config(*self),
                    ),
                head_cfg == mha_head_config(*self),
                self_attention_config_ok(head_cfg),
            decreases self.num_heads - i,
        {
            let head = match head_cfg.init() {
                Ok(h) => h,
                Err(_) => {
                    proof {
                        assert(false);
                    }
                    return Err(ConfigError::ZeroDimension);
                },
            };
            attns.push(head);
            i = i + 1;
        }
        Ok(
            MultiHeadAttention {
                self_attn: attns,
                output: Linear { d_input: self.embedding_dim, d_output: self.embedding_dim },
                dropout: Dropout { rate: self.dropout },
            },
        )
    }
}

/// A head configuration that passes its own check.
pub open spec fn self_attention_config_ok(c: SelfAttentionConfig) -> bool {
    crate::layers::attention::self_attention_config_check(c) is Ok
}

/// What a forward pass returns: the layer preserves `[B, S, E]` exactly;
/// an input whose last axis is not the embedding width is rejected (by the
/// first head's projection).
pub open spec fn mha_forward_spec(m: MultiHeadAttention, x: Shape3) -> Result<Shape3, ShapeError> {
    if x.embed == m.embedding_dim_spec() {
        Ok(Shape3 { batch: x.batch, seq: x.seq, embed: m.embedding_dim_spec() })
    } else {
        Err(ShapeError::DimMismatch { expected: m.embedding_dim_spec(), found: x.embed })
    }
}

impl MultiHeadAttention {
    /// The embedding width the layer consumes and produces.
    pub open spec fn embedding_dim_spec(self) -> usize {
        self.output.d_input
    }

    /// The width each head contributes to the concatenation.
    pub open spec fn head_dim_spec(self) -> usize {
        self.self_attn@[0].head_dim_spec()
    }

    /// Well-formedness: at least one head; all heads read the embedding
    /// width and write the head width; the concatenated head outputs
    /// reconstruct the embedding width exactly; the output projection is
    /// `E -> E`.
    pub open spec fn wf(self) -> bool {
        &&& self.self_attn@.len() >= 1
        &&& forall|i: int|
            0 <= i < self.self_attn@.len() ==> (#[trigger] self.self_attn@[i]).wf()
                && self.self_attn@[i].embedding_dim_spec() == self.embedding_dim_spec()
                && self.self_attn@[i].head_dim_spec() == self.head_dim_spec()
        &&& self.self_attn@.len() * self.head_dim_spec() == self.embedding_dim_spec()
        &&& self.output.wf()
        &&& self.output.d_output == self.output.d_input
        &&& self.dropout.wf()
    }

    /// Runs every head on the same input, concatenates the head outputs
    /// along the last axis, projects, and applies dropout. The loop
    /// invariant tracks the width of the concatenation so far: after `i`
    /// heads it is exactly `i * head_dim`.
    pub fn forward(&self, inputs: Shape3) -> (r: Result<Shape3, ShapeError>)
        requires
            self.wf(),
        ensures
            r == mha_forward_spec(*self, inputs),
    {
        let n = self.self_attn.len();
        let mut cat_embed: usize = 0;
        let mut i: usize = 0;
        while i < n
            invariant
                self.wf(),
                n == self.self_attn@.len(),
                i <= n,
                cat_embed == i * self.head_dim_spec(),
                i >= 1 ==> inputs.embed == self.embedding_dim_spec(),
            decreases n - i,
        {
            let h = match self.self_attn[i].forward(inputs) {
                Ok(s) => s,
                Err(e) => {
                    return Err(e);
                },
            };
            proof {
                lemma_mul_is_distributive_add_other_way(
                    self.head_dim_spec() as int,
                    i as int,
                    1,
                );
                lemma_mul_inequality(i as int + 1, n as int, self.head_dim_spec() as int);
            }
            cat_embed = cat_embed + h.embed;
            i = i + 1;
        }
        // Concatenation of the head outputs along the last axis.
        let cat = Shape3 { batch: inputs.batch, seq: inputs.seq, embed: cat_embed };
        let projected = match self.output.forward(cat) {
            Ok(s) => s,
            Err(e) => {
                return Err(e);
            },
        };
        Ok(self.dropout.forward(projected))
    }
}

/// With a single head whose width is the whole embedding dimension,
/// multi-head attention is shape-equivalent to that one head: both accept
/// exactly the same inputs, return the same output shape, and reject with
/// the same error.
pub proof fn lemma_single_head_equivalence(m: MultiHeadAttention, x: Shape3)
    requires
        m.wf(),
        m.self_attn@.len() == 1,
    ensures
        m.head_dim_spec() == m.embedding_dim_spec(),
        mha_forward_spec(m, x) == self_attention_forward_spec(m.self_attn@[0], x),
{
    assert(1 * m.head_dim_spec() == m.head_dim_spec());
    assert(m.self_attn@[0].head_dim_spec() == m.embedding_dim_spec());
}

} // verus!
