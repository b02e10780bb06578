//! The scalar engine: a value type carrying a payload, an accumulated
//! gradient and the tag of the operation that produced it, together with the
//! forward operations and the local backward step.
//!
//! `data` and `grad` hold IEEE-754 binary64 encodings. The forward binary
//! operations and `tanh` take the arithmetic result from the caller, who
//! computes it under IEEE-754 rules; the contracts pin everything else: the
//! operation tag of the result, the gradient that is copied (or, for relu,
//! reset), and the payload. The backward step performs its entire dispatch
//! here -- the comparisons it makes are defined on the encodings -- and asks
//! the caller only for the final gradient arithmetic.

use vstd::prelude::*;

use crate::bits::lemma_sign_trichotomy;
use crate::bits::spec_abs_below_epsilon;
use crate::bits::spec_eq;
use crate::bits::spec_gt_zero;
use crate::bits::spec_is_nan;
use crate::bits::spec_is_zero;
use crate::bits::spec_lt_zero;
use crate::bits::abs_below_epsilon;
use crate::bits::eq_bits;
use crate::bits::gt_zero;
use crate::bits::lt_zero;
use crate::bits::NAN_BITS;
use crate::bits::ONE_BITS;
use crate::bits::ZERO_BITS;

verus! {

/// Which operation produced a value. A leaf was made directly from a number
/// and carries no producing operation.
#[derive(Debug, Clone, Copy, PartialEq, Eq, Structural)]
pub enum Op {
    Leaf,
    Add,
    Sub,
    Mul,
    Div,
    Tanh,
    Relu,
}

/// A scalar of the engine. `data` is the forward-computed payload and `grad`
/// the accumulated gradient, both as binary64 encodings; `op` tags the
/// operation that produced the value and is set once, at creation.
#[derive(Debug, Clone)]
pub struct Value {
    pub data: u64,
    pub grad: u64,
    pub op: Op,
}

/// Arithmetic the caller performs ahead of a backward step, under IEEE-754
/// rules, handed in as encodings: `diff` is `downstream.data - self.data`,
/// `quot` is `downstream.data / self.data` (the raw quotient, NaN or infinite
/// where IEEE-754 says so), and `tanh_deriv` is `1 - tanh(self.data)^2`.
/// Every field may be computed unconditionally; the dispatch reads only the
/// ones its rule needs.
#[derive(Debug, Clone, Copy)]
pub struct BackwardHints {
    pub diff: u64,
    pub quot: u64,
    pub tanh_deriv: u64,
}

/// The gradient arithmetic a backward step asks its caller to perform:
/// nothing, or accumulate `term` onto the gradient -- doubled when the
/// self-combination heuristic fired.
#[derive(Debug, Clone, Copy, PartialEq, Eq, Structural)]
pub enum GradUpdate {
    Unchanged,
    Accumulate { term: u64, doubled: bool },
}

/// What the relu forward pass keeps of a payload: a positive value survives,
/// everything else (either zero, a negative value, a NaN) collapses to 0.0.
pub open spec fn relu_data_bits(b: u64) -> u64 {
    if spec_gt_zero(b) {
        b
    } else {
        ZERO_BITS
    }
}

/// What the backward relu rule writes over the gradient: 1.0 for positive
/// data, 0.0 for negative data, NaN when the data is a zero or a NaN.
pub open spec fn relu_grad_bits(b: u64) -> u64 {
    if spec_gt_zero(b) {
        ONE_BITS
    } else if spec_lt_zero(b) {
        ZERO_BITS
    } else {
        NAN_BITS
    }
}

/// The update a backward step selects, keyed by the downstream operation tag.
///
/// - `Add`: accumulate the downstream gradient, doubled when the value
///   equals the downstream payload minus itself (the value was combined with
///   an operand numerically equal to itself), under exact IEEE equality.
/// - `Mul`: accumulate the protected quotient -- 1.0 when the value's
///   magnitude is below the machine epsilon, else the raw quotient of the
///   downstream payload by the value -- doubled when the value equals that
///   raw quotient.
/// - `Tanh`: accumulate the tanh derivative the caller evaluated.
/// - Every other tag, relu aside, changes nothing; relu overwrites the
///   gradient in place (see `Value::backward`) and asks for no arithmetic.
pub open spec fn backward_update_of(self_data: u64, downstream: Value, hints: BackwardHints) -> GradUpdate {
    match downstream.op {
        Op::Add => GradUpdate::Accumulate {
            term: downstream.grad,
            doubled: spec_eq(self_data, hints.diff),
        },
        Op::Mul => GradUpdate::Accumulate {
            term: if spec_abs_below_epsilon(self_data) {
                ONE_BITS
            } else {
                hints.quot
            },
            doubled: spec_eq(self_data, hints.quot),
        },
        Op::Tanh => GradUpdate::Accumulate { term: hints.tanh_deriv, doubled: false },
        _ => GradUpdate::Unchanged,
    }
}

/// The value is a fresh leaf of the given payload: gradient 0.0, no
/// producing operation.
pub open spec fn is_fresh_leaf(v: Value, data: u64) -> bool {
    &&& v.data == data
    &&& v.grad == ZERO_BITS
    &&& v.op == Op::Leaf
}

/// The value is what the relu forward pass produces from a fresh leaf of the
/// given payload: the rectified payload, gradient 0.0, tag `Relu`.
pub open spec fn is_relu_of(v: Value, activation: u64) -> bool {
    &&& v.data == relu_data_bits(activation)
    &&& v.grad == ZERO_BITS
    &&& v.op == Op::Relu
}

impl Value {
    /// A leaf value: the given payload, gradient 0.0, no producing operation.
    pub fn new(data: u64) -> (v: Value)
        ensures
            v.data == data,
            v.grad == ZERO_BITS,
            v.op == Op::Leaf,
    {
        Value { data, grad: ZERO_BITS, op: Op::Leaf }
    }

    /// Addition. `sum` is `self.data + other.data`, computed by the caller
    /// under IEEE-754 rules; the other operand contributes nothing further.
    /// The gradient is copied from `self`, not reset.
    pub fn add(&self, sum: u64) -> (v: Value)
        ensures
            v.data == sum,
            v.grad == self.grad,
            v.op == Op::Add,
    {
        Value { data: sum, grad: self.grad, op: Op::Add }
    }

    /// Subtraction. `difference` is `self.data - other.data`, computed by
    /// the caller. The gradient is copied from `self`.
    pub fn sub(&self, difference: u64) -> (v: Value)
        ensures
            v.data == difference,
            v.grad == self.grad,
            v.op == Op::Sub,
    {
        Value { data: difference, grad: self.grad, op: Op::Sub }
    }

    /// Multiplication. `product` is `self.data * other.data`, computed by
    /// the caller. The gradient is copied from `self`.
    pub fn mul(&self, product: u64) -> (v: Value)
        ensures
            v.data == product,
            v.grad == self.grad,
            v.op == Op::Mul,
    {
        Value { data: product, grad: self.grad, op: Op::Mul }
    }

    /// Division. `quotient` is `self.data / other.data`, computed by the
    /// caller with no zero check: IEEE-754 yields an infinity or a NaN
    /// there. The gradient is copied from `self`.
    pub fn div(&self, quotient: u64) -> (v: Value)
        ensures
            v.data == quotient,
            v.grad == self.grad,
            v.op == Op::Div,
    {
        Value { data: quotient, grad: self.grad, op: Op::Div }
    }

    /// Hyperbolic tangent. `t` is `tanh(self.data)`, evaluated by the
    /// caller. The gradient is copied from `self`, not reset.
    pub fn tanh(&self, t: u64) -> (v: Value)
        ensures
            v.data == t,
            v.grad == self.grad,
            v.op == Op::Tanh,
    {
        Value { data: t, grad: self.grad, op: Op::Tanh }
    }

    /// Rectified linear unit. Unlike every other forward operation this one
    /// needs no arithmetic from the caller: a positive payload is kept, any
    /// other payload becomes 0.0, and -- unlike the others -- the gradient of
    /// the result is reset to 0.0 rather than copied.
    pub fn relu(&self) -> (v: Value)
        ensures
            v.data == relu_data_bits(self.data),
            v.grad == ZERO_BITS,
            v.op == Op::Relu,
    {
        let data = if gt_zero(self.data) {
            self.data
        } else {
            ZERO_BITS
        };
        Value { data, grad: ZERO_BITS, op: Op::Relu }
    }

    /// The local backward step. `downstream` is the value produced from
    /// `self` (or an ancestor); the rule is keyed by `downstream.op` alone,
    /// re-deriving the relationship from the current numeric state -- no
    /// operand links are kept. `hints` carries the caller's IEEE-754
    /// arithmetic (see `BackwardHints`).
    ///
    /// A relu downstream overwrites the gradient here, by sign of the data;
    /// every other rule leaves the value untouched and returns the
    /// accumulation the caller must perform, `Unchanged` where the tag has
    /// no rule (a leaf, a difference, a quotient). Payload and tag never
    /// change.
    pub fn backward(&mut self, downstream: &Value, hints: &BackwardHints) -> (upd: GradUpdate)
        ensures
            final(self).data == old(self).data,
            final(self).op == old(self).op,
            final(self).grad == if downstream.op == Op::Relu {
                relu_grad_bits(old(self).data)
            } else {
                old(self).grad
            },
            upd == backward_update_of(old(self).data, *downstream, *hints),
    {
        match downstream.op {
            Op::Add => GradUpdate::Accumulate {
                term: downstream.grad,
                doubled: eq_bits(self.data, hints.diff),
            },
            Op::Mul => {
                let doubled = eq_bits(self.data, hints.quot);
                let term = if abs_below_epsilon(self.data) {
                    ONE_BITS
                } else {
                    hints.quot
                };
                GradUpdate::Accumulate { term, doubled }
            },
            Op::Tanh => GradUpdate::Accumulate { term: hints.tanh_deriv, doubled: false },
            Op::Relu => {
                self.grad = if gt_zero(self.data) {
                    ONE_BITS
                } else if lt_zero(self.data) {
                    ZERO_BITS
                } else {
                    NAN_BITS
                };
                GradUpdate::Unchanged
            },
            _ => GradUpdate::Unchanged,
        }
    }
}

/// The backward relu rule writes NaN exactly on the payloads where neither
/// sign test holds: the two zeros and the NaNs. Everywhere else it writes
/// 1.0 or 0.0, and never both tests hold at once.
pub proof fn lemma_relu_grad_nan_only_at_zero(b: u64)
    ensures
        relu_grad_bits(b) == NAN_BITS <==> (spec_is_zero(b) || spec_is_nan(b)),
        relu_grad_bits(b) == ONE_BITS <==> spec_gt_zero(b),
        relu_grad_bits(b) == ZERO_BITS <==> spec_lt_zero(b),
{
    if !spec_is_nan(b) {
        lemma_sign_trichotomy(b);
    }
    assert(NAN_BITS != ONE_BITS && NAN_BITS != ZERO_BITS && ONE_BITS != ZERO_BITS);
}

} // verus!
