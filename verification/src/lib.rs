//! Rational trigonometry: quadrance, spread and the cross and dot products of
//! plane vectors, computed with ring and field arithmetic only.
//!
//! ```text
//!           A
//!           |\
//!           | \
//!        q1 |  \ q3
//!           |   \
//!           |    \
//!           B-----C
//!             q2
//!
//!      where q1, q2, q3 are quadrances (squared distances)
//! ```
//!
//! The formulas are written once, for every number type that is
//! [`Numeric`]: `vector` holds those on vectors, `triangle` those on the
//! quadrances of a triangle. Each states its result over the arithmetic that
//! the type specifies. For the types that compute with integers, `integer`
//! says what that arithmetic is, `lattice` and `exact` what the formulas
//! then come to, and `laws` what holds of them; `geometry` is the plane that
//! the quadrances are measured in.

pub mod exact;
pub mod fibonacci;
pub mod geometry;
pub mod integer;
pub mod lattice;
pub mod laws;
pub mod numeric;
pub mod triangle;
pub mod vector;

pub use fibonacci::fib;
pub use numeric::Numeric;
pub use triangle::{archimedes, spread_law, triple_quad_formula};
pub use vector::{cross, dot, quad, spread, Vector2};
