//! A minimal scalar automatic-differentiation engine with a small multilayer
//! perceptron on top of it.
//!
//! Every scalar payload is carried as the raw bit pattern of an IEEE-754
//! binary64 number. The floating-point arithmetic itself (sums, products,
//! quotients, the hyperbolic tangent) is performed by the caller, which hands
//! the resulting encodings in; everything downstream of that arithmetic --
//! operation tags, gradient bookkeeping, the backward dispatch rules with
//! their exact comparison semantics, and the network shapes -- is verified
//! here.

pub mod bits;
pub mod engine;
pub mod net;
