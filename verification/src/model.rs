//! The Vision Transformer model: patch embedding, positional embedding, a
//! stack of encoder blocks, and a held (final-norm, pooler) pair.
//!
//! The forward path is image to patch tokens to position-augmented tokens
//! to the encoder stack, each block consuming the previous block's output;
//! its shape contract composes the layers' contracts: a `[B, C, H, W]`
//! image yields `[B, (H/P)*(W/P), E]`. The final normalization and the
//! pooler are built and owned but not invoked on that raw path; a separate
//! pooled accessor applies them, so a caller can use either output without
//! guessing.

use vstd::prelude::*;

use crate::shape::{dropout_rate_valid, ConfigError, Shape3, Shape4, ShapeError};
use crate::layers::encoder::{
    encoder_built_from, encoder_config_check, encoder_forward_spec, Encoder, EncoderConfig,
};
use crate::layers::patch_embedding::{
    patch_count, patch_embedding_forward_spec, patch_embedding_from_config, PatchEmbedding,
    PatchEmbeddingConfig,
};
use crate::layers::pooler::{pooler_forward_spec, pooler_from_config, Pooler, PoolerConfig};
use crate::layers::position_embedding::{positional_forward_spec, PositionalEmbedding};
use crate::layers::primitives::{layer_norm_forward_spec, Dropout, LayerNorm};

verus! {

/// The assembled model. All sub-components are built once from a
/// `ViTConfig` and persist unchanged; encoder blocks share no weights.
#[derive(Clone, Debug)]
pub struct ViTModel {
    pub patch_embedding: PatchEmbedding,
    pub positional_embedding: PositionalEmbedding,
    pub encoders: Vec<Encoder>,
    pub ln1: LayerNorm,
    pub pooler: Pooler,
}

/// The model configuration: every sub-component is built from these eight
/// fields, consistently.
#[derive(Clone, Copy, Debug)]
pub struct ViTConfig {
    pub embedding_dim: usize,
    pub patch_size: usize,
    pub in_channels: usize,
    pub max_token_length: usize,
    pub hidden_dim: usize,
    pub num_heads: usize,
    /// Dropout rate in millionths; must lie in `[0, 1)`.
    pub dropout: u32,
    pub num_encoder_layers: usize,
}

/// Which configurations are accepted. Divisibility constraints are checked
/// here, at construction time, rather than deferred to the first forward
/// call.
pub open spec fn vit_config_check(c: ViTConfig) -> Result<(), ConfigError> {
    if c.embedding_dim < 1 || c.patch_size < 1 || c.in_channels < 1 || c.max_token_length < 1
        || c.hidden_dim < 1 || c.num_heads < 1 || c.num_encoder_layers < 1 {
        Err(ConfigError::ZeroDimension)
    } else if c.embedding_dim % c.num_heads != 0 {
        Err(ConfigError::HeadsDoNotDivide)
    } else if c.embedding_dim % 2 != 0 {
        Err(ConfigError::OddEmbedding)
    } else if !dropout_rate_valid(c.dropout) {
        Err(ConfigError::DropoutOutOfRange)
    } else {
        Ok(())
    }
}

/// The encoder-block configuration a model configuration induces; every
/// block in the stack gets the same one (but independent weights).
pub open spec fn vit_encoder_config(c: ViTConfig) -> EncoderConfig {
    EncoderConfig {
        embedding_dim: c.embedding_dim,
        num_heads: c.num_heads,
        hidden_dim: c.hidden_dim,
        dropout: c.dropout,
    }
}

/// The model a valid configuration builds: patch embedding, positional
/// embedding and pooler sized from the same fields, `num_encoder_layers`
/// independently built encoder blocks, and the final normalization. The
/// pooler projects the embedding width onto itself.
pub open spec fn vit_built_from(m: ViTModel, c: ViTConfig) -> bool {
    &&& m.patch_embedding == patch_embedding_from_config(
        PatchEmbeddingConfig {
            patch_size: c.patch_size,
            embedding_dim: c.embedding_dim,
            in_channels: c.in_channels,
        },
    )
    &&& m.positional_embedding.wf()
    &&& m.positional_embedding.embedding_dim == c.embedding_dim
    &&& m.positional_embedding.max_token_length == c.max_token_length
    &&& m.positional_embedding.dropout == (Dropout { rate: c.dropout })
    &&& m.encoders@.len() == c.num_encoder_layers
    &&& forall|i: int|
        0 <= i < c.num_encoder_layers ==> encoder_built_from(
            #[trigger] m.encoders@[i],
            vit_encoder_config(c),
        )
    &&& m.ln1 == (LayerNorm { d_model: c.embedding_dim })
    &&& m.pooler == pooler_from_config(
        PoolerConfig { embedding_dim: c.embedding_dim, out_features: c.embedding_dim },
    )
}

impl ViTConfig {
    pub fn init(&self) -> (r: Result<ViTModel, ConfigError>)
        ensures
            r is Ok <==> vit_config_check(*self) is Ok,
            r matches Err(e) ==> vit_config_check(*self) == Err::<(), ConfigError>(e),
            r matches Ok(m) ==> vit_built_from(m, *self) && m.wf() && m.embedding_dim_spec()
                == self.embedding_dim,
    {
        if self.embedding_dim < 1 || self.patch_size < 1 || self.in_channels < 1
            || self.max_token_length < 1 || self.hidden_dim < 1 || self.num_heads < 1
            || self.num_encoder_layers < 1 {
            return Err(ConfigError::ZeroDimension);
        }
        if self.embedding_dim % self.num_heads != 0 {
            return Err(ConfigError::HeadsDoNotDivide);
        }
        if self.embedding_dim % 2 != 0 {
            return Err(ConfigError::OddEmbedding);
        }
        if self.dropout >= crate::shape::DROPOUT_ONE {
            return Err(ConfigError::DropoutOutOfRange);
        }
        let patch_embedding = match (PatchEmbeddingConfig {
            patch_size: self.patch_size,
            embedding_dim: self.embedding_dim,
            in_channels: self.in_channels,
        }).init() {
            Ok(pe) => pe,
            Err(e) => {
                proof {
                    assert(false);
                }
                return Err(e);
            },
        };
        let positional_embedding = match PositionalEmbedding::new(
            self.embedding_dim,
            self.max_token_length,
            self.dropout,
        ) {
            Ok(pe) => pe,
            Err(e) => {
                proof {
                    assert(false);
                }
                return Err(e);
            },
        };
        let enc_cfg = EncoderConfig {
            embedding_dim: self.embedding_dim,
            num_heads: self.num_heads,
            hidden_dim: self.hidden_dim,
            dropout: self.dropout,
        };
        let mut encoders: Vec<Encoder> = Vec::new();
        let mut i: usize = 0;
        while i < self.num_encoder_layers
            invariant
                i <= self.num_encoder_layers,
                encoders@.len() == i,
                enc_cfg == vit_encoder_config(*self),
                encoder_config_check(enc_cfg) is Ok,
                forall|j: int|
                    0 <= j < i ==> encoder_built_from(#[trigger] encoders@[j], enc_cfg)
                        && encoders@[j].wf() && encoders@[j].embedding_dim_spec()
                        == enc_cfg.embedding_dim,
            decreases self.num_encoder_layers - i,
        {
            let enc = match enc_cfg.init() {
                Ok(enc) => enc,
                Err(_) => {
                    proof {
                        assert(false);
                    }
                    return Err(ConfigError::ZeroDimension);
                },
            };
            encoders.push(enc);
            i = i + 1;
        }
        let ln1 = LayerNorm { d_model: self.embedding_dim };
        let pooler = match (PoolerConfig {
            embedding_dim: self.embedding_dim,
            out_features: self.embedding_dim,
        }).init() {
            Ok(p) => p,
            Err(e) => {
                proof {
                    assert(false);
                }
                return Err(e);
            },
        };
        Ok(ViTModel { patch_embedding, positional_embedding, encoders, ln1, pooler })
    }
}

/// The encoder stack's effect on a shape: each block consumes the previous
/// block's output, stopping at the first rejection.
pub open spec fn encoder_stack_spec(encs: Seq<Encoder>, x: Shape3) -> Result<Shape3, ShapeError>
    decreases encs.len(),
{
    if encs.len() == 0 {
        Ok(x)
    } else {
        match encoder_forward_spec(encs[0], x) {
            Ok(y) => encoder_stack_spec(encs.drop_first(), y),
            Err(e) => Err(e),
        }
    }
}

/// A stack of well-formed blocks of the input's own width passes the input
/// shape through unchanged.
pub proof fn lemma_encoder_stack_preserves(encs: Seq<Encoder>, x: Shape3)
    requires
        forall|i: int|
            0 <= i < encs.len() ==> (#[trigger] encs[i]).wf() && encs[i].embedding_dim_spec()
                == x.embed,
    ensures
        encoder_stack_spec(encs, x) == Ok::<Shape3, ShapeError>(x),
    decreases encs.len(),
{
    if encs.len() > 0 {
        assert(encoder_forward_spec(encs[0], x) == Ok::<Shape3, ShapeError>(x));
        assert(forall|i: int|
            0 <= i < encs.drop_first().len() ==> #[trigger] encs.drop_first()[i] == encs[i + 1]);
        lemma_encoder_stack_preserves(encs.drop_first(), x);
    }
}

/// What the model's raw forward pass returns: patch embedding, then
/// positional embedding, then the encoder stack.
pub open spec fn vit_forward_spec(m: ViTModel, x: Shape4) -> Result<Shape3, ShapeError> {
    match patch_embedding_forward_spec(m.patch_embedding, x) {
        Ok(t) => match positional_forward_spec(m.positional_embedding, t) {
            Ok(t2) => encoder_stack_spec(m.encoders@, t2),
            Err(e) => Err(e),
        },
        Err(e) => Err(e),
    }
}

impl ViTModel {
    /// The embedding width every stage of the model works in.
    pub open spec fn embedding_dim_spec(self) -> usize {
        self.patch_embedding.embedding_dim
    }

    /// Well-formedness: every sub-component is well-formed and they all
    /// agree on the embedding width, so the stages compose.
    pub open spec fn wf(self) -> bool {
        &&& self.patch_embedding.wf()
        &&& self.positional_embedding.wf()
        &&& self.positional_embedding.embedding_dim == self.embedding_dim_spec()
        &&& forall|i: int|
            0 <= i < self.encoders@.len() ==> (#[trigger] self.encoders@[i]).wf()
                && self.encoders@[i].embedding_dim_spec() == self.embedding_dim_spec()
        &&& self.ln1.d_model == self.embedding_dim_spec()
        &&& self.pooler.wf()
        &&& self.pooler.dense.d_input == self.embedding_dim_spec()
    }

    /// The raw forward path: image to patch tokens to position-augmented
    /// tokens through every encoder block in order. On an accepted
    /// `[B, C, H, W]` image it returns `[B, (H/P)*(W/P), E]`; a channel
    /// mismatch, an extent not divisible by the patch size, or a patch
    /// sequence longer than the positional table is rejected with the
    /// corresponding error. The final normalization and the pooler are not
    /// applied here; see `forward_pooled`.
    pub fn forward(&self, inputs: Shape4) -> (r: Result<Shape3, ShapeError>)
        requires
            self.wf(),
            patch_count(self.patch_embedding, inputs) <= usize::MAX,
        ensures
            r == vit_forward_spec(*self, inputs),
            r matches Ok(s) ==> s == (Shape3 {
                batch: inputs.batch,
                seq: patch_count(self.patch_embedding, inputs) as usize,
                embed: self.embedding_dim_spec(),
            }),
    {
        let patch_out = match self.patch_embedding.forward(inputs) {
            Ok(s) => s,
            Err(e) => {
                return Err(e);
            },
        };
        let x = match self.positional_embedding.forward(patch_out) {
            Ok(s) => s,
            Err(e) => {
                return Err(e);
            },
        };
        proof {
            lemma_encoder_stack_preserves(self.encoders@, x);
        }
        let mut y = x;
        let n = self.encoders.len();
        let mut i: usize = 0;
        while i < n
            invariant
                self.wf(),
                n == self.encoders@.len(),
                i <= n,
                y == x,
                x.embed == self.embedding_dim_spec(),
            decreases n - i,
        {
            y = match self.encoders[i].forward(y) {
                Ok(s) => s,
                Err(e) => {
                    proof {
                        assert(false);
                    }
                    return Err(e);
                },
            };
            i = i + 1;
        }
        Ok(y)
    }

    /// The pooled output: the raw forward output, normalized and then
    /// projected per token by the pooler. The shape of the raw output is
    /// preserved, since the pooler projects the embedding width onto
    /// itself.
    pub fn forward_pooled(&self, inputs: Shape4) -> (r: Result<Shape3, ShapeError>)
        requires
            self.wf(),
            patch_count(self.patch_embedding, inputs) <= usize::MAX,
        ensures
            r == vit_forward_pooled_spec(*self, inputs),
    {
        let raw = match self.forward(inputs) {
            Ok(s) => s,
            Err(e) => {
                return Err(e);
            },
        };
        let normed = match self.ln1.forward(raw) {
            Ok(s) => s,
            Err(e) => {
                return Err(e);
            },
        };
        let pooled = match self.pooler.forward(normed) {
            Ok(s) => s,
            Err(e) => {
                return Err(e);
            },
        };
        Ok(pooled)
    }
}

/// What the pooled accessor returns: the raw path, then the final
/// normalization, then the pooler's per-token projection.
pub open spec fn vit_forward_pooled_spec(m: ViTModel, x: Shape4) -> Result<Shape3, ShapeError> {
    match vit_forward_spec(m, x) {
        Ok(t) => match layer_norm_forward_spec(m.ln1, t) {
            Ok(t2) => pooler_forward_spec(m.pooler, t2),
            Err(e) => Err(e),
        },
        Err(e) => Err(e),
    }
}

/// The forward pass is a pure function of the model's weights and its
/// input: it holds no hidden state, so any two results of the same model
/// on the same input — a repeated run included — are equal.
pub proof fn lemma_forward_deterministic(
    m: ViTModel,
    x: Shape4,
    r1: Result<Shape3, ShapeError>,
    r2: Result<Shape3, ShapeError>,
)
    requires
        r1 == vit_forward_spec(m, x),
        r2 == vit_forward_spec(m, x),
    ensures
        r1 == r2,
{
}

} // verus!
