//! Patch embedding: image to patch-token sequence.
//!
//! A 2D convolution whose kernel size and stride both equal the patch size
//! `P` partitions a `[B, C, H, W]` image into non-overlapping `P x P`
//! patches and linearly projects each flattened patch to the embedding
//! width (convolution with stride equal to kernel is exactly patch-extract
//! plus dense projection). The `[B, E, H/P, W/P]` result is reshaped to
//! `[B, E, N]` and the last two axes are transposed, giving the token-major
//! `[B, N, E]` with `N = (H/P) * (W/P)`. Spatial extents not divisible by
//! `P` are rejected rather than silently truncated.

use vstd::prelude::*;

use crate::shape::{ConfigError, Shape3, Shape4, ShapeError};

verus! {

/// The shape parameters of the patch convolution: `in_channels` input
/// channels to `embedding_dim` output channels, kernel and stride both
/// `patch_size`.
#[derive(Clone, Copy, Debug)]
pub struct PatchEmbedding {
    pub patch_size: usize,
    pub in_channels: usize,
    pub embedding_dim: usize,
}

/// Configuration of the patch embedding.
#[derive(Clone, Copy, Debug)]
pub struct PatchEmbeddingConfig {
    pub patch_size: usize,
    pub embedding_dim: usize,
    pub in_channels: usize,
}

pub open spec fn patch_embedding_config_check(c: PatchEmbeddingConfig) -> Result<
    (),
    ConfigError,
> {
    if c.patch_size < 1 || c.embedding_dim < 1 || c.in_channels < 1 {
        Err(ConfigError::ZeroDimension)
    } else {
        Ok(())
    }
}

pub open spec fn patch_embedding_from_config(c: PatchEmbeddingConfig) -> PatchEmbedding {
    PatchEmbedding {
        patch_size: c.patch_size,
        in_channels: c.in_channels,
        embedding_dim: c.embedding_dim,
    }
}

pub open spec fn patch_embedding_init_spec(c: PatchEmbeddingConfig) -> Result<
    PatchEmbedding,
    ConfigError,
> {
    match patch_embedding_config_check(c) {
        Ok(()) => Ok(patch_embedding_from_config(c)),
        Err(e) => Err(e),
    }
}

impl PatchEmbeddingConfig {
    pub fn init(&self) -> (r: Result<PatchEmbedding, ConfigError>)
        ensures
            r == patch_embedding_init_spec(*self),
            r is Ok ==> r->Ok_0.wf(),
    {
        if self.patch_size < 1 || self.embedding_dim < 1 || self.in_channels < 1 {
            Err(ConfigError::ZeroDimension)
        } else {
            Ok(
                PatchEmbedding {
                    patch_size: self.patch_size,
                    in_channels: self.in_channels,
                    embedding_dim: self.embedding_dim,
                },
            )
        }
    }
}

/// The number of patch tokens an image of the given extents yields.
pub open spec fn patch_count(p: PatchEmbedding, x: Shape4) -> int {
    (x.height as int / p.patch_size as int) * (x.width as int / p.patch_size as int)
}

/// What a forward pass returns: `[B, C, H, W]` with `H` and `W` divisible
/// by the patch size maps to `[B, (H/P)*(W/P), E]`; a channel mismatch or
/// an extent not divisible by `P` is rejected.
pub open spec fn patch_embedding_forward_spec(p: PatchEmbedding, x: Shape4) -> Result<
    Shape3,
    ShapeError,
> {
    if x.channels != p.in_channels {
        Err(ShapeError::DimMismatch { expected: p.in_channels, found: x.channels })
    } else if x.height % p.patch_size != 0 {
        Err(ShapeError::NotDivisible { extent: x.height, divisor: p.patch_size })
    } else if x.width % p.patch_size != 0 {
        Err(ShapeError::NotDivisible { extent: x.width, divisor: p.patch_size })
    } else {
        Ok(Shape3 { batch: x.batch, seq: patch_count(p, x) as usize, embed: p.embedding_dim })
    }
}

impl PatchEmbedding {
    pub open spec fn wf(self) -> bool {
        self.patch_size >= 1 && self.in_channels >= 1 && self.embedding_dim >= 1
    }

    /// Convolution, reshape, transpose. The convolution maps `[B, C, H, W]`
    /// to `[B, E, H/P, W/P]`; the reshape merges the two spatial axes into
    /// a single token axis of length `(H/P) * (W/P)`; the transpose of the
    /// last two axes makes the layout token-major.
    pub fn forward(&self, inputs: Shape4) -> (r: Result<Shape3, ShapeError>)
        requires
            self.wf(),
            patch_count(*self, inputs) <= usize::MAX,
        ensures
            r == patch_embedding_forward_spec(*self, inputs),
    {
        if inputs.channels != self.in_channels {
            return Err(ShapeError::DimMismatch {
                expected: self.in_channels,
                found: inputs.channels,
            });
        }
        if inputs.height % self.patch_size != 0 {
            return Err(ShapeError::NotDivisible {
                extent: inputs.height,
                divisor: self.patch_size,
            });
        }
        if inputs.width % self.patch_size != 0 {
            return Err(ShapeError::NotDivisible {
                extent: inputs.width,
                divisor: self.patch_size,
            });
        }
        // Convolution output [B, E, H/P, W/P].
        let height = inputs.height / self.patch_size;
        let width = inputs.width / self.patch_size;
        // Reshape to [B, E, N] with N = (H/P) * (W/P), then transpose the
        // last two axes to [B, N, E].
        let tokens = height * width;
        Ok(Shape3 { batch: inputs.batch, seq: tokens, embed: self.embedding_dim })
    }
}

} // verus!
