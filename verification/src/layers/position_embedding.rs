//! Fixed sinusoidal positional embedding.
//!
//! The embedding matrix has shape `[max_token_length, embedding_dim]` and
//! is a pure function of the configuration, computed once at construction
//! and never mutated or learned: for position `p` and pair index
//! `i in [0, E/2)`, column `2i` holds `sin(p / 10000^(2i/E))` and column
//! `2i + 1` holds `cos(p / 10000^(2i/E))`. This module builds and verifies
//! the exact symbolic description of that matrix: which wave each cell
//! holds and the angle's numerator `p`, exponent numerator `2i` and
//! exponent denominator `E`. The transcendental evaluation of each cell is
//! the tensor engine's, outside this crate; everything that determines it
//! is pinned here, cell by cell.
//!
//! The forward pass adds the first `S` rows of the matrix to every batch
//! element of a `[B, S, E]` input (a broadcast add over the batch axis) and
//! applies dropout, so it preserves the shape; a sequence longer than the
//! table is rejected.

use vstd::prelude::*;

use crate::shape::{dropout_rate_valid, ConfigError, Shape3, ShapeError, DROPOUT_ONE};
use crate::layers::primitives::Dropout;
use vstd::arithmetic::div_mod::{
    lemma_fundamental_div_mod, lemma_fundamental_div_mod_converse,
};
use vstd::arithmetic::mul::{lemma_mul_inequality, lemma_mul_is_distributive_add_other_way};

verus! {

/// Which wave a cell of the embedding matrix holds.
#[derive(Clone, Copy, Debug, PartialEq, Eq, Structural)]
pub enum Wave {
    Sine,
    Cosine,
}

/// The exact symbolic value of one cell of the embedding matrix: the cell
/// is `sin(angle)` or `cos(angle)` with
/// `angle = position / 10000^(num / den)`.
#[derive(Clone, Copy, Debug, PartialEq, Eq, Structural)]
pub struct PosEntry {
    pub wave: Wave,
    pub position: usize,
    pub num: usize,
    pub den: usize,
}

/// The cell the sinusoidal rule puts at row `p`, column `c` of a matrix
/// with embedding width `e`: sine in even columns, cosine in odd ones, and
/// in both the angle `p / 10000^(2i/e)` for the pair index `i = c / 2`.
pub open spec fn pos_entry(p: usize, c: usize, e: usize) -> PosEntry {
    PosEntry {
        wave: if c % 2 == 0 {
            Wave::Sine
        } else {
            Wave::Cosine
        },
        position: p,
        num: (2 * (c as int / 2)) as usize,
        den: e,
    }
}

/// The positional embedding: its constant matrix, stored row-major as a
/// flat table of cell descriptions, and a dropout policy. The matrix is
/// not a learnable parameter: nothing here mutates it.
#[derive(Clone, Debug)]
pub struct PositionalEmbedding {
    pub embedding_dim: usize,
    pub max_token_length: usize,
    pub table: Vec<PosEntry>,
    pub dropout: Dropout,
}

/// Configuration of the positional embedding.
#[derive(Clone, Copy, Debug)]
pub struct PositionalEmbeddingConfig {
    pub embedding_dim: usize,
    pub max_token_length: usize,
    /// Dropout rate in millionths; must lie in `[0, 1)`.
    pub dropout: u32,
}

/// Which configurations are accepted: positive dimensions, an even
/// embedding width (so sine and cosine columns pair up exactly), and a
/// dropout rate in `[0, 1)`.
pub open spec fn positional_config_check(e: usize, max: usize, dropout: u32) -> Result<
    (),
    ConfigError,
> {
    if e < 1 || max < 1 {
        Err(ConfigError::ZeroDimension)
    } else if e % 2 != 0 {
        Err(ConfigError::OddEmbedding)
    } else if !dropout_rate_valid(dropout) {
        Err(ConfigError::DropoutOutOfRange)
    } else {
        Ok(())
    }
}

impl PositionalEmbedding {
    /// The cell the table must hold at flat index `i` of the row-major
    /// layout: index `i` is row `i / E`, column `i % E`.
    pub open spec fn entry_at(self, i: int) -> PosEntry {
        pos_entry(
            (i / self.embedding_dim as int) as usize,
            (i % self.embedding_dim as int) as usize,
            self.embedding_dim,
        )
    }

    /// Well-formedness: valid dimensions, and the table is exactly the
    /// row-major sinusoidal matrix — every cell is pinned, so the matrix
    /// is a pure function of `(embedding_dim, max_token_length)`.
    pub open spec fn wf(self) -> bool {
        &&& self.embedding_dim >= 2
        &&& self.embedding_dim % 2 == 0
        &&& self.max_token_length >= 1
        &&& self.dropout.wf()
        &&& self.table@.len() == self.max_token_length * self.embedding_dim
        &&& forall|i: int|
            0 <= i < self.table@.len() ==> #[trigger] self.table@[i] == self.entry_at(i)
    }

    /// Builds the embedding matrix for the given configuration: row by row,
    /// column by column, each cell gets its sinusoidal description. The
    /// loop invariants pin every cell already placed, so the finished
    /// table satisfies `wf` and is bit-identical across constructions.
    pub fn new(embedding_dim: usize, max_token_length: usize, dropout: u32) -> (r: Result<
        PositionalEmbedding,
        ConfigError,
    >)
        ensures
            r is Ok <==> positional_config_check(embedding_dim, max_token_length, dropout)
                is Ok,
            r matches Err(e) ==> positional_config_check(embedding_dim, max_token_length, dropout)
                == Err::<(), ConfigError>(e),
            r matches Ok(pe) ==> pe.wf() && pe.embedding_dim == embedding_dim
                && pe.max_token_length == max_token_length && pe.dropout == (Dropout {
                rate: dropout,
            }),
    {
        if embedding_dim < 1 || max_token_length < 1 {
            return Err(ConfigError::ZeroDimension);
        }
        if embedding_dim % 2 != 0 {
            return Err(ConfigError::OddEmbedding);
        }
        if dropout >= DROPOUT_ONE {
            return Err(ConfigError::DropoutOutOfRange);
        }
        let mut table: Vec<PosEntry> = Vec::new();
        let mut p: usize = 0;
        while p < max_token_length
            invariant
                embedding_dim >= 2,
                p <= max_token_length,
                table@.len() == p * embedding_dim,
                forall|i: int|
                    0 <= i < table@.len() ==> #[trigger] table@[i] == pos_entry(
                        (i / embedding_dim as int) as usize,
                        (i % embedding_dim as int) as usize,
                        embedding_dim,
                    ),
            decreases max_token_length - p,
        {
            proof {
                lemma_mul_is_distributive_add_other_way(embedding_dim as int, p as int, 1);
            }
            let mut c: usize = 0;
            while c < embedding_dim
                invariant
                    embedding_dim >= 2,
                    c <= embedding_dim,
                    p < max_token_length,
                    (p + 1) * embedding_dim == p * embedding_dim + embedding_dim,
                    table@.len() == p * embedding_dim + c,
                    forall|i: int|
                        0 <= i < table@.len() ==> #[trigger] table@[i] == pos_entry(
                            (i / embedding_dim as int) as usize,
                            (i % embedding_dim as int) as usize,
                            embedding_dim,
                        ),
                decreases embedding_dim - c,
            {
                let wave = if c % 2 == 0 {
                    Wave::Sine
                } else {
                    Wave::Cosine
                };
                let num = c / 2 * 2;
                proof {
                    lemma_fundamental_div_mod(c as int, 2);
                    lemma_fundamental_div_mod_converse(
                        p as int * embedding_dim as int + c as int,
                        embedding_dim as int,
                        p as int,
                        c as int,
                    );
                }
                table.push(PosEntry { wave, position: p, num, den: embedding_dim });
                c = c + 1;
            }
            p = p + 1;
        }
        Ok(
            PositionalEmbedding {
                embedding_dim,
                max_token_length,
                table,
                dropout: Dropout { rate: dropout },
            },
        )
    }

    /// The cell at row `p`, column `c` of the embedding matrix.
    pub fn entry(&self, p: usize, c: usize) -> (r: PosEntry)
        requires
            self.wf(),
            p < self.max_token_length,
            c < self.embedding_dim,
        ensures
            r == pos_entry(p, c, self.embedding_dim),
    {
        let n = self.table.len();
        proof {
            lemma_mul_inequality(
                p as int + 1,
                self.max_token_length as int,
                self.embedding_dim as int,
            );
            lemma_mul_is_distributive_add_other_way(
                self.embedding_dim as int,
                p as int,
                1,
            );
            lemma_fundamental_div_mod_converse(
                p as int * self.embedding_dim as int + c as int,
                self.embedding_dim as int,
                p as int,
                c as int,
            );
        }
        let idx = p * self.embedding_dim + c;
        self.table[idx]
    }

    /// What a forward pass returns: the broadcast add of the first `S` rows
    /// of the matrix preserves `[B, S, E]`; a sequence longer than the
    /// table is rejected first (an out-of-range row slice), then a last
    /// axis that is not the matrix's width (an ill-shaped elementwise add).
    pub fn forward(&self, inputs: Shape3) -> (r: Result<Shape3, ShapeError>)
        ensures
            r == positional_forward_spec(*self, inputs),
    {
        if inputs.seq > self.max_token_length {
            Err(ShapeError::SequenceTooLong { seq: inputs.seq, max: self.max_token_length })
        } else if inputs.embed != self.embedding_dim {
            Err(ShapeError::DimMismatch { expected: self.embedding_dim, found: inputs.embed })
        } else {
            // Broadcast add of matrix rows [0, S) over the batch axis, then
            // dropout: both shape-preserving.
            Ok(self.dropout.forward(inputs))
        }
    }
}

pub open spec fn positional_forward_spec(pe: PositionalEmbedding, x: Shape3) -> Result<
    Shape3,
    ShapeError,
> {
    if x.seq > pe.max_token_length {
        Err(ShapeError::SequenceTooLong { seq: x.seq, max: pe.max_token_length })
    } else if x.embed != pe.embedding_dim {
        Err(ShapeError::DimMismatch { expected: pe.embedding_dim, found: x.embed })
    } else {
        Ok(x)
    }
}

impl Default for PositionalEmbeddingConfig {
    /// The conventional defaults: an embedding width of 768, a table of
    /// 512 positions, and no dropout.
    fn default() -> (r: Self)
        ensures
            r == (PositionalEmbeddingConfig {
                embedding_dim: 768,
                max_token_length: 512,
                dropout: 0u32,
            }),
    {
        PositionalEmbeddingConfig { embedding_dim: 768, max_token_length: 512, dropout: 0 }
    }
}

impl PositionalEmbeddingConfig {
    pub fn init(&self) -> (r: Result<PositionalEmbedding, ConfigError>)
        ensures
            r is Ok <==> positional_config_check(
                self.embedding_dim,
                self.max_token_length,
                self.dropout,
            ) is Ok,
            r matches Err(e) ==> positional_config_check(
                self.embedding_dim,
                self.max_token_length,
                self.dropout,
            ) == Err::<(), ConfigError>(e),
            r matches Ok(pe) ==> pe.wf() && pe.embedding_dim == self.embedding_dim
                && pe.max_token_length == self.max_token_length && pe.dropout == (Dropout {
                rate: self.dropout,
            }),
    {
        PositionalEmbedding::new(self.embedding_dim, self.max_token_length, self.dropout)
    }
}

/// The matrix is deterministic and stateless: it is a pure function of the
/// configuration, so two embeddings built from identical dimensions hold
/// identical tables, cell for cell.
pub proof fn lemma_matrix_deterministic(a: PositionalEmbedding, b: PositionalEmbedding)
    requires
        a.wf(),
        b.wf(),
        a.embedding_dim == b.embedding_dim,
        a.max_token_length == b.max_token_length,
    ensures
        a.table@ == b.table@,
{
    assert(a.table@.len() == b.table@.len());
    assert forall|i: int| 0 <= i < a.table@.len() implies a.table@[i] == b.table@[i] by {
        assert(a.table@[i] == a.entry_at(i));
        assert(b.table@[i] == b.entry_at(i));
    }
    assert(a.table@ =~= b.table@);
}

} // verus!
