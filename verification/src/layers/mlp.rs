//! The encoder block's feed-forward network: an `E -> hidden` affine map,
//! GELU activation, dropout, and a `hidden -> E` affine map back. The
//! activation and dropout are elementwise, so the whole network maps
//! `[B, S, E]` to `[B, S, E]` and rejects any other input width.

use vstd::prelude::*;

use crate::shape::{dropout_rate_valid, ConfigError, Shape3, ShapeError, DROPOUT_ONE};
use crate::layers::primitives::{linear_forward_spec, Dropout, Gelu, Linear};

verus! {

/// The two affine maps, activation, and dropout policy of the network.
#[derive(Clone, Copy, Debug)]
pub struct Mlp {
    pub activation_fn: Gelu,
    pub linear1: Linear,
    pub linear2: Linear,
    pub dropout: Dropout,
}

/// Configuration of the feed-forward network.
#[derive(Clone, Copy, Debug)]
pub struct MlpConfig {
    pub embedding_dim: usize,
    pub hidden_dim: usize,
    /// Dropout rate in millionths; must lie in `[0, 1)`.
    pub dropout: u32,
}

pub open spec fn mlp_config_check(c: MlpConfig) -> Result<(), ConfigError> {
    if c.embedding_dim < 1 || c.hidden_dim < 1 {
        Err(ConfigError::ZeroDimension)
    } else if !dropout_rate_valid(c.dropout) {
        Err(ConfigError::DropoutOutOfRange)
    } else {
        Ok(())
    }
}

pub open spec fn mlp_from_config(c: MlpConfig) -> Mlp {
    Mlp {
        activation_fn: Gelu {  },
        linear1: Linear { d_input: c.embedding_dim, d_output: c.hidden_dim },
        linear2: Linear { d_input: c.hidden_dim, d_output: c.embedding_dim },
        dropout: Dropout { rate: c.dropout },
    }
}

pub open spec fn mlp_init_spec(c: MlpConfig) -> Result<Mlp, ConfigError> {
    match mlp_config_check(c) {
        Ok(()) => Ok(mlp_from_config(c)),
        Err(e) => Err(e),
    }
}

impl MlpConfig {
    pub fn init(&self) -> (r: Result<Mlp, ConfigError>)
        ensures
            r == mlp_init_spec(*self),
            r is Ok ==> r->Ok_0.wf(),
    {
        if self.embedding_dim < 1 || self.hidden_dim < 1 {
            Err(ConfigError::ZeroDimension)
        } else if self.dropout >= DROPOUT_ONE {
            Err(ConfigError::DropoutOutOfRange)
        } else {
            Ok(
                Mlp {
                    activation_fn: Gelu {  },
                    linear1: Linear { d_input: self.embedding_dim, d_output: self.hidden_dim },
                    linear2: Linear { d_input: self.hidden_dim, d_output: self.embedding_dim },
                    dropout: Dropout { rate: self.dropout },
                },
            )
        }
    }
}

/// What a forward pass returns: the composition of the two affine maps.
/// On `[B, S, E]` it gives `[B, S, E]`; any other input width is rejected
/// by the first map.
pub open spec fn mlp_forward_spec(m: Mlp, x: Shape3) -> Result<Shape3, ShapeError> {
    match linear_forward_spec(m.linear1, x) {
        Ok(h) => linear_forward_spec(m.linear2, h),
        Err(e) => Err(e),
    }
}

impl Mlp {
    /// The width the network consumes and produces.
    pub open spec fn embedding_dim_spec(self) -> usize {
        self.linear1.d_input
    }

    /// The two affine maps meet in the hidden width and return to the
    /// input width, so the network is shape-preserving on its domain.
    pub open spec fn wf(self) -> bool {
        &&& self.linear1.wf()
        &&& self.linear2.wf()
        &&& self.linear2.d_input == self.linear1.d_output
        &&& self.linear2.d_output == self.linear1.d_input
        &&& self.dropout.wf()
    }

    pub fn forward(&self, inputs: Shape3) -> (r: Result<Shape3, ShapeError>)
        ensures
            r == mlp_forward_spec(*self, inputs),
    {
        let x = match self.linear1.forward(inputs) {
            Ok(s) => s,
            Err(e) => {
                return Err(e);
            },
        };
        let x = self.activation_fn.forward(x);
        let x = self.dropout.forward(x);
        let x = match self.linear2.forward(x) {
            Ok(s) => s,
            Err(e) => {
                return Err(e);
            },
        };
        Ok(x)
    }
}

} // verus!
