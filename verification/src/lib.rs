//! A Bloom filter: a fixed-size bit array and a family of seeded hash
//! functions that answer "has this item possibly been inserted?" with no
//! false negatives.
//!
//! Items are byte strings. A filter is built by [`new_exact`]; its methods
//! [`BloomFilter::add`] and [`BloomFilter::test`] carry contracts over the
//! filter's mathematical model, [`FilterModel`], and the module [`laws`]
//! proves what follows from them.

pub mod bit_store;
pub mod error;
pub mod filter;
pub mod hashing;
pub mod laws;
pub mod model;
pub mod sizing;

pub use bit_store::MAX_BITS;
pub use error::InvalidParameter;
pub use filter::{new_exact, BloomFilter};
pub use model::FilterModel;
pub use sizing::validate_exact_dimensions;
