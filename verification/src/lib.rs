//! Fixed-size vectors, a point type, and column-major square matrices over
//! IEEE-754 binary64 scalars, every value carried as its `u64` bit pattern.
//! Every operation's contract pins the result down to the exact rounded
//! bit pattern, in the exact order the operations are applied.

pub mod matrices;
pub mod point;
pub mod scalar;
pub mod vectors;
