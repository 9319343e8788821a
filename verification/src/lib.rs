//! Particle-swarm-optimization building blocks: dense row-major matrix
//! storage, the Romu family of pseudo-random engines, and the bit-level
//! integer-to-float conversion layer that turns raw draws into uniform
//! deviates.

mod convert;
mod dense_matrix;
mod error;
mod random;

pub use convert::{
    lemma_uniform_fast_bits_endpoints, lemma_uniform_fast_bits_monotone, precise_lz_spec,
    precise_result, uniform_fast_bits, uniform_fast_bits_spec, uniform_precise_bits,
    MANTISSA_MASK, ONE_F64_BITS,
};

pub use dense_matrix::{
    concat_rows, lemma_row_ranges_disjoint, lemma_rows_concat, DenseMatrix, IterRows, Shape,
};
pub use error::Error;
pub use random::{
    chunk_stream, fill_bytes, le_bytes_32, le_bytes_64, le_word_32, le_word_64,
    lemma_engine_determinism, stream_state, RandomEngine, RomuDuoJr, RomuTrio, RomuTrio32,
    ROMU_MULT_32, ROMU_MULT_64,
};
