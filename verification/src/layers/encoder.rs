//! One transformer encoder block, in post-norm residual style:
//! `x1 = LayerNorm(MultiHeadAttention(x)) + x` and
//! `x2 = LayerNorm(Mlp(x1)) + x1`. The residual additions demand that every
//! sublayer preserve the `[B, S, E]` shape exactly; the block's contract
//! proves that it does, so a whole stack of blocks composes.

use vstd::prelude::*;

use crate::shape::{ConfigError, Shape3, ShapeError};
use crate::layers::mlp::{mlp_from_config, Mlp, MlpConfig};
use crate::layers::multi_head_attention::{
    mha_built_from, mha_config_check, MultiHeadAttention, MultiHeadAttentionConfig,
};
use crate::layers::primitives::{residual_add, LayerNorm};
use vstd::arithmetic::div_mod::{lemma_fundamental_div_mod, lemma_div_pos_is_pos};

verus! {

/// One encoder block: multi-head attention, two independent normalization
/// parameter sets, and the feed-forward network.
#[derive(Clone, Debug)]
pub struct Encoder {
    pub mha: MultiHeadAttention,
    pub ln1: LayerNorm,
    pub ln2: LayerNorm,
    pub mlp: Mlp,
}

/// Configuration of one encoder block.
#[derive(Clone, Copy, Debug)]
pub struct EncoderConfig {
    pub embedding_dim: usize,
    pub num_heads: usize,
    pub hidden_dim: usize,
    /// Dropout rate in millionths; must lie in `[0, 1)`.
    pub dropout: u32,
}

/// Which configurations are accepted: positive dimensions and counts, the
/// number of heads dividing the embedding width evenly (each head then gets
/// width `E / num_heads`), and a dropout rate in `[0, 1)`.
pub open spec fn encoder_config_check(c: EncoderConfig) -> Result<(), ConfigError> {
    if c.embedding_dim < 1 || c.num_heads < 1 || c.hidden_dim < 1 {
        Err(ConfigError::ZeroDimension)
    } else if c.embedding_dim % c.num_heads != 0 {
        Err(ConfigError::HeadsDoNotDivide)
    } else if !crate::shape::dropout_rate_valid(c.dropout) {
        Err(ConfigError::DropoutOutOfRange)
    } else {
        Ok(())
    }
}

/// The attention configuration an encoder configuration induces.
pub open spec fn encoder_mha_config(c: EncoderConfig) -> MultiHeadAttentionConfig {
    MultiHeadAttentionConfig {
        num_heads: c.num_heads,
        embedding_dim: c.embedding_dim,
        head_dim: (c.embedding_dim as int / c.num_heads as int) as usize,
        dropout: c.dropout,
    }
}

/// The feed-forward configuration an encoder configuration induces.
pub open spec fn encoder_mlp_config(c: EncoderConfig) -> MlpConfig {
    MlpConfig { embedding_dim: c.embedding_dim, hidden_dim: c.hidden_dim, dropout: c.dropout }
}

/// The block a valid configuration builds.
pub open spec fn encoder_built_from(e: Encoder, c: EncoderConfig) -> bool {
    &&& mha_built_from(e.mha, encoder_mha_config(c))
    &&& e.ln1 == (LayerNorm { d_model: c.embedding_dim })
    &&& e.ln2 == (LayerNorm { d_model: c.embedding_dim })
    &&& e.mlp == mlp_from_config(encoder_mlp_config(c))
}

impl EncoderConfig {
    pub fn init(&self) -> (r: Result<Encoder, ConfigError>)
        ensures
            r is Ok <==> encoder_config_check(*self) is Ok,
            r matches Err(e) ==> encoder_config_check(*self) == Err::<(), ConfigError>(e),
            r matches Ok(enc) ==> encoder_built_from(enc, *self) && enc.wf()
                && enc.embedding_dim_spec() == self.embedding_dim,
    {
        if self.embedding_dim < 1 || self.num_heads < 1 || self.hidden_dim < 1 {
            return Err(ConfigError::ZeroDimension);
        }
        if self.embedding_dim % self.num_heads != 0 {
            return Err(ConfigError::HeadsDoNotDivide);
        }
        if self.dropout >= crate::shape::DROPOUT_ONE {
            return Err(ConfigError::DropoutOutOfRange);
        }
        let head_dim = self.embedding_dim / self.num_heads;
        proof {
            lemma_fundamental_div_mod(self.embedding_dim as int, self.num_heads as int);
            lemma_div_pos_is_pos(self.embedding_dim as int, self.num_heads as int);
        }
        let mha_cfg = MultiHeadAttentionConfig {
            num_heads: self.num_heads,
            embedding_dim: self.embedding_dim,
            head_dim,
            dropout: self.dropout,
        };
        proof {
            assert(head_dim >= 1) by {
                if head_dim == 0 {
                    assert(self.embedding_dim as int == self.num_heads as int * 0
                        + self.embedding_dim as int % self.num_heads as int);
                }
            }
            assert(mha_config_check(mha_cfg) is Ok);
        }
        let mha = match mha_cfg.init() {
            Ok(m) => m,
            Err(e) => {
                proof {
                    assert(false);
                }
                return Err(e);
            },
        };
        let mlp_cfg = MlpConfig {
            embedding_dim: self.embedding_dim,
            hidden_dim: self.hidden_dim,
            dropout: self.dropout,
        };
        let mlp = match mlp_cfg.init() {
            Ok(m) => m,
            Err(e) => {
                proof {
                    assert(false);
                }
                return Err(e);
            },
        };
        Ok(
            Encoder {
                mha,
                ln1: LayerNorm { d_model: self.embedding_dim },
                ln2: LayerNorm { d_model: self.embedding_dim },
                mlp,
            },
        )
    }
}

/// What a forward pass returns: the block preserves its input shape
/// exactly, and rejects an input whose last axis is not the embedding
/// width (the attention sublayer rejects it first).
pub open spec fn encoder_forward_spec(e: Encoder, x: Shape3) -> Result<Shape3, ShapeError> {
    if x.embed == e.embedding_dim_spec() {
        Ok(x)
    } else {
        Err(ShapeError::DimMismatch { expected: e.embedding_dim_spec(), found: x.embed })
    }
}

impl Encoder {
    /// The embedding width the block consumes and produces.
    pub open spec fn embedding_dim_spec(self) -> usize {
        self.mha.embedding_dim_spec()
    }

    /// All sublayers agree on the embedding width, so both residual
    /// additions are well-defined.
    pub open spec fn wf(self) -> bool {
        &&& self.mha.wf()
        &&& self.ln1.d_model == self.embedding_dim_spec()
        &&& self.ln2.d_model == self.embedding_dim_spec()
        &&& self.mlp.wf()
        &&& self.mlp.embedding_dim_spec() == self.embedding_dim_spec()
    }

    /// The post-norm residual data flow of the block. Both residual
    /// additions are checked shape-equalities; the contract shows they can
    /// never fail on an accepted input, which is exactly the shape
    /// preservation a stack of blocks relies on.
    pub fn forward(&self, inputs: Shape3) -> (r: Result<Shape3, ShapeError>)
        requires
            self.wf(),
        ensures
            r == encoder_forward_spec(*self, inputs),
            r is Ok ==> r->Ok_0 == inputs,
    {
        let attn = match self.mha.forward(inputs) {
            Ok(s) => s,
            Err(e) => {
                return Err(e);
            },
        };
        let normed = match self.ln1.forward(attn) {
            Ok(s) => s,
            Err(e) => {
                return Err(e);
            },
        };
        let x1 = match residual_add(normed, inputs) {
            Ok(s) => s,
            Err(e) => {
                return Err(e);
            },
        };
        let ff = match self.mlp.forward(x1) {
            Ok(s) => s,
            Err(e) => {
                return Err(e);
            },
        };
        let normed2 = match self.ln2.forward(ff) {
            Ok(s) => s,
            Err(e) => {
                return Err(e);
            },
        };
        let x2 = match residual_add(normed2, x1) {
            Ok(s) => s,
            Err(e) => {
                return Err(e);
            },
        };
        Ok(x2)
    }
}

} // verus!
