//! The pooler: one learned affine projection applied identically to every
//! token position. Note that despite its name it is not a reduction over
//! the sequence axis: `[B, S, E]` maps to `[B, S, out_features]`, keeping
//! every position.

use vstd::prelude::*;

use crate::shape::{ConfigError, Shape3, ShapeError};
use crate::layers::primitives::{linear_forward_spec, Linear};

verus! {

/// The pooler's single dense layer.
#[derive(Clone, Copy, Debug)]
pub struct Pooler {
    pub dense: Linear,
}

/// Configuration of the pooler.
#[derive(Clone, Copy, Debug)]
pub struct PoolerConfig {
    pub embedding_dim: usize,
    pub out_features: usize,
}

pub open spec fn pooler_config_check(c: PoolerConfig) -> Result<(), ConfigError> {
    if c.embedding_dim < 1 || c.out_features < 1 {
        Err(ConfigError::ZeroDimension)
    } else {
        Ok(())
    }
}

pub open spec fn pooler_from_config(c: PoolerConfig) -> Pooler {
    Pooler { dense: Linear { d_input: c.embedding_dim, d_output: c.out_features } }
}

pub open spec fn pooler_init_spec(c: PoolerConfig) -> Result<Pooler, ConfigError> {
    match pooler_config_check(c) {
        Ok(()) => Ok(pooler_from_config(c)),
        Err(e) => Err(e),
    }
}

impl PoolerConfig {
    pub fn init(&self) -> (r: Result<Pooler, ConfigError>)
        ensures
            r == pooler_init_spec(*self),
            r is Ok ==> r->Ok_0.wf(),
    {
        if self.embedding_dim < 1 || self.out_features < 1 {
            Err(ConfigError::ZeroDimension)
        } else {
            Ok(Pooler { dense: Linear { d_input: self.embedding_dim, d_output: self.out_features } })
        }
    }
}

/// What a forward pass returns: the dense layer's projection of the last
/// axis at every token position.
pub open spec fn pooler_forward_spec(p: Pooler, x: Shape3) -> Result<Shape3, ShapeError> {
    linear_forward_spec(p.dense, x)
}

impl Pooler {
    pub open spec fn wf(self) -> bool {
        self.dense.wf()
    }

    pub fn forward(&self, inputs: Shape3) -> (r: Result<Shape3, ShapeError>)
        ensures
            r == pooler_forward_spec(*self, inputs),
    {
        self.dense.forward(inputs)
    }
}

} // verus!
