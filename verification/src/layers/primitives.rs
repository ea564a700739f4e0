//! Shape behaviour of the tensor-engine primitives the model is built from:
//! affine projection, layer normalization, dropout, GELU, batched matrix
//! multiplication, transposition of the last two axes, softmax, and residual
//! addition. Each is specified at its interface: how it transforms the shape
//! of a `[batch, seq, embed]` activation tensor, and on which inputs it is
//! defined at all.

use vstd::prelude::*;

use crate::shape::{dropout_rate_valid, Shape3, ShapeError};

verus! {

/// An affine projection of the last axis: maps `[B, S, d_input]` to
/// `[B, S, d_output]`, applied identically at every batch and sequence
/// position. Any other input width is a shape mismatch.
#[derive(Clone, Copy, Debug)]
pub struct Linear {
    pub d_input: usize,
    pub d_output: usize,
}

pub open spec fn linear_forward_spec(l: Linear, x: Shape3) -> Result<Shape3, ShapeError> {
    if x.embed == l.d_input {
        Ok(Shape3 { batch: x.batch, seq: x.seq, embed: l.d_output })
    } else {
        Err(ShapeError::DimMismatch { expected: l.d_input, found: x.embed })
    }
}

impl Linear {
    pub open spec fn wf(self) -> bool {
        self.d_input >= 1 && self.d_output >= 1
    }

    pub fn forward(&self, inputs: Shape3) -> (r: Result<Shape3, ShapeError>)
        ensures
            r == linear_forward_spec(*self, inputs),
    {
        if inputs.embed == self.d_input {
            Ok(Shape3 { batch: inputs.batch, seq: inputs.seq, embed: self.d_output })
        } else {
            Err(ShapeError::DimMismatch { expected: self.d_input, found: inputs.embed })
        }
    }
}

/// Layer normalization over the last axis: shape-preserving, defined only
/// when the last axis matches the normalized width `d_model`.
#[derive(Clone, Copy, Debug)]
pub struct LayerNorm {
    pub d_model: usize,
}

pub open spec fn layer_norm_forward_spec(l: LayerNorm, x: Shape3) -> Result<Shape3, ShapeError> {
    if x.embed == l.d_model {
        Ok(x)
    } else {
        Err(ShapeError::DimMismatch { expected: l.d_model, found: x.embed })
    }
}

impl LayerNorm {
    pub open spec fn wf(self) -> bool {
        self.d_model >= 1
    }

    pub fn forward(&self, inputs: Shape3) -> (r: Result<Shape3, ShapeError>)
        ensures
            r == layer_norm_forward_spec(*self, inputs),
    {
        if inputs.embed == self.d_model {
            Ok(inputs)
        } else {
            Err(ShapeError::DimMismatch { expected: self.d_model, found: inputs.embed })
        }
    }
}

/// A dropout policy. Dropout zeroes random entries during training and is
/// the identity in evaluation mode; either way it never changes the shape.
/// The rate is a probability in `[0, 1)` stored in millionths.
#[derive(Clone, Copy, Debug)]
pub struct Dropout {
    pub rate: u32,
}

impl Dropout {
    pub open spec fn wf(self) -> bool {
        dropout_rate_valid(self.rate)
    }

    pub fn forward(&self, inputs: Shape3) -> (r: Shape3)
        ensures
            r == inputs,
    {
        inputs
    }
}

/// The GELU activation: an elementwise function, so shape-preserving on
/// every input.
#[derive(Clone, Copy, Debug)]
pub struct Gelu {}

impl Gelu {
    pub fn forward(&self, inputs: Shape3) -> (r: Shape3)
        ensures
            r == inputs,
    {
        inputs
    }
}

/// Batched matrix multiplication `[B, n, k] x [B, k, m] -> [B, n, m]`:
/// defined only when the batch sizes agree and the inner dimensions match.
pub open spec fn matmul_spec(a: Shape3, b: Shape3) -> Result<Shape3, ShapeError> {
    if a.batch != b.batch {
        Err(ShapeError::DimMismatch { expected: a.batch, found: b.batch })
    } else if a.embed != b.seq {
        Err(ShapeError::DimMismatch { expected: a.embed, found: b.seq })
    } else {
        Ok(Shape3 { batch: a.batch, seq: a.seq, embed: b.embed })
    }
}

pub fn matmul(a: Shape3, b: Shape3) -> (r: Result<Shape3, ShapeError>)
    ensures
        r == matmul_spec(a, b),
{
    if a.batch != b.batch {
        Err(ShapeError::DimMismatch { expected: a.batch, found: b.batch })
    } else if a.embed != b.seq {
        Err(ShapeError::DimMismatch { expected: a.embed, found: b.seq })
    } else {
        Ok(Shape3 { batch: a.batch, seq: a.seq, embed: b.embed })
    }
}

/// Transposition of the last two axes (a permutation of `[0, 2, 1]`):
/// `[B, n, m] -> [B, m, n]`.
pub fn transpose_last(x: Shape3) -> (r: Shape3)
    ensures
        r == (Shape3 { batch: x.batch, seq: x.embed, embed: x.seq }),
{
    Shape3 { batch: x.batch, seq: x.embed, embed: x.seq }
}

/// Softmax over the last axis, computed in the max-subtraction-stabilized
/// form: each row becomes a probability distribution, and the shape is
/// preserved on every input. Scalar scaling (division by a constant such as
/// `sqrt(head_dim)`) is likewise shape-preserving and is folded into this
/// step by callers.
pub fn softmax(x: Shape3) -> (r: Shape3)
    ensures
        r == x,
{
    x
}

/// Residual addition: elementwise, so defined only when the two operands
/// have exactly the same shape, which it preserves.
pub open spec fn residual_add_spec(a: Shape3, b: Shape3) -> Result<Shape3, ShapeError> {
    if a == b {
        Ok(a)
    } else {
        Err(ShapeError::ResidualMismatch)
    }
}

pub fn residual_add(a: Shape3, b: Shape3) -> (r: Result<Shape3, ShapeError>)
    ensures
        r == residual_add_spec(a, b),
{
    if a.batch == b.batch && a.seq == b.seq && a.embed == b.embed {
        Ok(a)
    } else {
        Err(ShapeError::ResidualMismatch)
    }
}

} // verus!
