//! Small standard-library extensions: a fast non-cryptographic hasher, a
//! pseudo-random byte generator, panic-safe slicing helpers, map/set/option
//! conveniences, and a 2D integer vector type.

/// Extension of functionality for `Option`-like types.
pub mod option;
/// Faster hashing than the default.
pub mod hash;
/// Non-cryptographic pseudo-random number generators.
pub mod rand;
/// Mathematical vectors.
pub mod vec;
/// Panic-safe slicing helpers.
pub mod slice;
/// Extension for `HashMap`-like structures.
pub mod map;
/// Extension for `HashSet`-like structures.
pub mod set;
