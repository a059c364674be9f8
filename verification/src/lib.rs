//! Small verified demonstrations of core language constructs: integer
//! arithmetic through a helper function, a positional three-field record
//! with a destructuring check, and counting one variant of a two-variant
//! enum in a vector.

pub mod arith;
pub mod color;
pub mod matching;
