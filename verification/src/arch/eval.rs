//! An expression builder that knows the value of every expression.
use crate::arch::{diagnostic_views, BasicExprBuilder, Combine, Diagnostic, ErrorSpan, Report};
use crate::common::{stmt_views, Expr, NumericRepr, Stmt, StmtView, Value};
use vstd::prelude::*;
use vstd::wrapping::u64_specs::{wrapping_add, wrapping_mul};

verus! {

/// (value & mask) << shift, where a negative shift is a shift to the right.
pub open spec fn mask_shift_spec(value: u64, mask: u64, shift: i8) -> u64 {
    if shift >= 0 {
        (value & mask) << (shift as u64)
    } else {
        (value & mask) >> ((-shift) as u64)
    }
}

/// Masks a value and shifts it: to the left for a positive shift, to the right for a negative
/// one. The bits that leave the 64 bits of the value are lost.
pub fn mask_shift_value(value: u64, mask: u64, shift: i8) -> (r: u64)
    ensures
        r == mask_shift_spec(value, mask, shift),
        shift >= 0 ==> r == (value & mask) << (shift as u64),
        shift < 0 ==> r == (value & mask) >> ((-shift) as u64),
{
    let masked: u64 = value & mask;
    if shift >= 0 {
        let amount: u64 = shift as u64;
        if amount >= 64 {
            assert(amount >= 64 ==> (masked << amount) == 0) by (bit_vector);
            0
        } else {
            masked << amount
        }
    } else {
        let amount: u64 = (-(shift as i16)) as u64;
        if amount >= 64 {
            assert(amount >= 64 ==> (masked >> amount) == 0) by (bit_vector);
            0
        } else {
            masked >> amount
        }
    }
}

/// The first of the numbers from `from` to 63 that is the logarithm of `value` to the base two.
pub open spec fn log2_from(value: u64, from: u64) -> Option<u64>
    decreases 64 - from,
{
    if from >= 64 {
        None
    } else if value == 1u64 << from {
        Some(from)
    } else {
        log2_from(value, (from + 1) as u64)
    }
}

/// The logarithm of a power of two to the base two; `None` for other values.
pub open spec fn log2_spec(value: u64) -> Option<u64> {
    log2_from(value, 0)
}

/// The logarithm to the base two of a value, if the value is a power of two.
pub fn log2_value(value: u64) -> (r: Option<u64>)
    ensures
        r == log2_spec(value),
        r matches Some(k) ==> k < 64 && value == 1u64 << k,
{
    let mut k: u64 = 0;
    while k < 64
        invariant
            k <= 64,
            log2_spec(value) == log2_from(value, k),
        decreases 64 - k,
    {
        if value == 1u64 << k {
            return Some(k);
        }
        k += 1;
    }
    None
}

/// An expression builder that knows the value of every expression and combines them at
/// once. An expression is the place of its value in the list of the values that are known.
#[derive(Debug, Clone, PartialEq, Eq)]
pub struct Evaluator {
    /// All collected statements in their order.
    pub stmts: Vec<Stmt>,
    /// All reported errors in their order.
    pub diagnostics: Vec<Diagnostic>,
    /// The values of the expressions.
    pub values: Vec<u64>,
}

impl Evaluator {
    /// The value of an expression, if the builder knows it.
    pub open spec fn spec_value(&self, expr: Expr) -> Option<u64> {
        if expr.idx < self.values@.len() {
            Some(self.values@[expr.idx as int])
        } else {
            None
        }
    }

    /// The bits of a value: those of a number, or those of the value of an expression.
    pub open spec fn spec_bits_of(&self, value: Value) -> Option<u64> {
        match value {
            Value::Number(nr) => Some(nr.bits()),
            Value::Expr(expr) => self.spec_value(expr),
        }
    }

    /// The builder after it has learned the value of one more expression.
    pub open spec fn learned(&self, after: &Evaluator, value: u64) -> bool {
        &&& after.stmts@ == self.stmts@
        &&& after.diagnostics@ == self.diagnostics@
        &&& after.values@ == self.values@.push(value)
    }

    /// What a combinator gives that makes `value` of known operands and refuses others: the
    /// builder learns the value, and the expression is its place.
    pub open spec fn combined(&self, after: &Evaluator, r: Option<Expr>, value: Option<u64>, repr: NumericRepr) -> bool {
        match value {
            Some(v) => self.learned(after, v) && r == Some(Expr { idx: self.values@.len() as usize, repr }),
            None => *after == *self && r is None,
        }
    }

    pub fn new() -> (r: Evaluator)
        ensures
            r.stmts@.len() == 0,
            r.diagnostics@.len() == 0,
            r.values@.len() == 0,
    {
        Evaluator { stmts: Vec::new(), diagnostics: Vec::new(), values: Vec::new() }
    }

    /// Lets the builder know the value of a new expression, and returns that expression.
    pub fn define(&mut self, value: u64, repr: NumericRepr) -> (r: Expr)
        ensures
            old(self).learned(final(self), value),
            r == (Expr { idx: old(self).values@.len() as usize, repr }),
    {
        let idx = self.values.len();
        self.values.push(value);
        Expr { idx, repr }
    }

    /// The value of an expression, if the builder knows it.
    pub fn value(&self, expr: Expr) -> (r: Option<u64>)
        ensures
            r == self.spec_value(expr),
    {
        if expr.idx < self.values.len() {
            Some(self.values[expr.idx])
        } else {
            None
        }
    }

    /// The bits of a value.
    pub fn bits_of(&self, value: Value) -> (r: Option<u64>)
        ensures
            r == self.spec_bits_of(value),
    {
        match value {
            Value::Number(nr) => Some(nr.as_u64()),
            Value::Expr(expr) => self.value(expr),
        }
    }

    /// Learns the value that a combinator made, if it made one.
    fn learn(&mut self, value: Option<u64>, repr: NumericRepr) -> (r: Option<Expr>)
        ensures
            old(self).combined(final(self), r, value, repr),
            final(self).emitted() == old(self).emitted(),
            final(self).reported() == old(self).reported(),
    {
        match value {
            Some(v) => Some(self.define(v, repr)),
            None => None,
        }
    }
}

/// The bitwise or of two values that are known.
pub open spec fn or_spec(a: Option<u64>, b: Option<u64>) -> Option<u64> {
    match (a, b) {
        (Some(x), Some(y)) => Some(x | y),
        _ => None,
    }
}

/// The bitwise and of two values that are known.
pub open spec fn and_spec(a: Option<u64>, b: Option<u64>) -> Option<u64> {
    match (a, b) {
        (Some(x), Some(y)) => Some(x & y),
        _ => None,
    }
}

/// The bitwise exclusive or of two values that are known.
pub open spec fn xor_spec(a: Option<u64>, b: Option<u64>) -> Option<u64> {
    match (a, b) {
        (Some(x), Some(y)) => Some(x ^ y),
        _ => None,
    }
}

/// The sum of two values that are known, in 64 bits.
pub open spec fn add_spec(a: Option<u64>, b: Option<u64>) -> Option<u64> {
    match (a, b) {
        (Some(x), Some(y)) => Some(wrapping_add(x, y)),
        _ => None,
    }
}

/// The product of two values that are known, in 64 bits.
pub open spec fn mul_spec(a: Option<u64>, b: Option<u64>) -> Option<u64> {
    match (a, b) {
        (Some(x), Some(y)) => Some(wrapping_mul(x, y)),
        _ => None,
    }
}

/// The value of an expression among the values that are known, if it is one of them.
pub open spec fn value_in(known: Seq<u64>, expr: Expr) -> Option<u64> {
    if expr.idx < known.len() {
        Some(known[expr.idx as int])
    } else {
        None
    }
}

/// The bits of a value: those of a number, or those of the value of an expression among the
/// values that are known.
pub open spec fn bits_in(known: Seq<u64>, value: Value) -> Option<u64> {
    match value {
        Value::Number(nr) => Some(nr.bits()),
        Value::Expr(expr) => value_in(known, expr),
    }
}

/// The value that a combination has, if its operands are among the values that are known
/// and the combination is defined.
pub open spec fn combination(known: Seq<u64>, request: Combine) -> Option<u64> {
    match request {
        Combine::BitOr(a, b) => or_spec(value_in(known, a), bits_in(known, b)),
        Combine::BitAnd(a, b) => and_spec(value_in(known, a), bits_in(known, b)),
        Combine::BitXor(a, b) => xor_spec(value_in(known, a), bits_in(known, b)),
        Combine::Add(a, b) => add_spec(value_in(known, a), bits_in(known, b)),
        Combine::Mul(a, b) => mul_spec(value_in(known, a), bits_in(known, b)),
        Combine::Neg(a) => match value_in(known, a) {
            Some(x) => Some(!x),
            None => None,
        },
        Combine::Log2(a) => match value_in(known, a) {
            Some(x) => log2_spec(x),
            None => None,
        },
        Combine::MaskShift(val, mask, shift) => match value_in(known, val) {
            Some(x) => Some(mask_shift_spec(x, mask, shift)),
            None => None,
        },
    }
}

/// The representation of a combination: that of the second operand where there are two,
/// else that of the only one.
pub open spec fn combination_repr(request: Combine) -> NumericRepr {
    match request {
        Combine::BitOr(_, b) => b.spec_repr(),
        Combine::BitAnd(_, b) => b.spec_repr(),
        Combine::BitXor(_, b) => b.spec_repr(),
        Combine::Add(_, b) => b.spec_repr(),
        Combine::Mul(_, b) => b.spec_repr(),
        Combine::Neg(a) => a.repr,
        Combine::Log2(a) => a.repr,
        Combine::MaskShift(val, _, _) => val.repr,
    }
}

impl BasicExprBuilder for Evaluator {
    /// The evaluator knows the values of expressions: an expression is the place of its
    /// value.
    type Knowledge = Seq<u64>;

    open spec fn emitted(&self) -> Seq<StmtView> {
        stmt_views(self.stmts@)
    }

    open spec fn knowledge(&self) -> Seq<u64> {
        self.values@
    }

    /// The evaluator combines what it knows: it answers with a new expression if the
    /// combination has a value, and refuses else.
    open spec fn answer(known: Seq<u64>, request: Combine) -> Option<Expr> {
        match combination(known, request) {
            Some(_) => Some(Expr { idx: known.len() as usize, repr: combination_repr(request) }),
            None => None,
        }
    }

    /// The evaluator learns the value of the expression that it answers with.
    open spec fn after(known: Seq<u64>, request: Combine) -> Seq<u64> {
        match combination(known, request) {
            Some(value) => known.push(value),
            None => known,
        }
    }

    open spec fn reported(&self) -> Seq<Report> {
        diagnostic_views(self.diagnostics@)
    }

    fn push(&mut self, stmt: Stmt)
        ensures
            final(self).values@ == old(self).values@,
    {
        self.stmts.push(stmt);
        assert(stmt_views(self.stmts@) =~= stmt_views(old(self).stmts@).push(stmt@));
    }

    /// a | b, if both are known; of the representation of b.
    fn bit_or(&mut self, a: Expr, b: Value) -> (r: Option<Expr>)
        ensures
            old(self).combined(
                final(self),
                r,
                or_spec(old(self).spec_value(a), old(self).spec_bits_of(b)),
                b.spec_repr(),
            ),
    {
        let value = match (self.value(a), self.bits_of(b)) {
            (Some(x), Some(y)) => Some(x | y),
            _ => None,
        };
        self.learn(value, b.repr())
    }

    /// a & b, if both are known; of the representation of b.
    fn bit_and(&mut self, a: Expr, b: Value) -> (r: Option<Expr>)
        ensures
            old(self).combined(
                final(self),
                r,
                and_spec(old(self).spec_value(a), old(self).spec_bits_of(b)),
                b.spec_repr(),
            ),
    {
        let value = match (self.value(a), self.bits_of(b)) {
            (Some(x), Some(y)) => Some(x & y),
            _ => None,
        };
        self.learn(value, b.repr())
    }

    /// a ^ b, if both are known; of the representation of b.
    fn bit_xor(&mut self, a: Expr, b: Value) -> (r: Option<Expr>)
        ensures
            old(self).combined(
                final(self),
                r,
                xor_spec(old(self).spec_value(a), old(self).spec_bits_of(b)),
                b.spec_repr(),
            ),
    {
        let value = match (self.value(a), self.bits_of(b)) {
            (Some(x), Some(y)) => Some(x ^ y),
            _ => None,
        };
        self.learn(value, b.repr())
    }

    /// a + b in 64 bits, if both are known; of the representation of b.
    fn add(&mut self, a: Expr, b: Value) -> (r: Option<Expr>)
        ensures
            old(self).combined(
                final(self),
                r,
                add_spec(old(self).spec_value(a), old(self).spec_bits_of(b)),
                b.spec_repr(),
            ),
    {
        let value = match (self.value(a), self.bits_of(b)) {
            (Some(x), Some(y)) => Some(x.wrapping_add(y)),
            _ => None,
        };
        self.learn(value, b.repr())
    }

    /// a * b in 64 bits, if both are known; of the representation of b.
    fn mul(&mut self, a: Expr, b: Value) -> (r: Option<Expr>)
        ensures
            old(self).combined(
                final(self),
                r,
                mul_spec(old(self).spec_value(a), old(self).spec_bits_of(b)),
                b.spec_repr(),
            ),
    {
        let value = match (self.value(a), self.bits_of(b)) {
            (Some(x), Some(y)) => Some(x.wrapping_mul(y)),
            _ => None,
        };
        self.learn(value, b.repr())
    }

    /// !a, if a is known; of the representation of a.
    fn neg(&mut self, a: Expr) -> (r: Option<Expr>)
        ensures
            old(self).combined(
                final(self),
                r,
                match old(self).spec_value(a) {
                    Some(x) => Some(!x),
                    None => None,
                },
                a.repr,
            ),
    {
        let value = match self.value(a) {
            Some(x) => Some(!x),
            None => None,
        };
        self.learn(value, a.repr)
    }

    /// The logarithm of a to the base two, if a is known and a power of two; of the
    /// representation of a.
    fn log2(&mut self, a: Expr) -> (r: Option<Expr>)
        ensures
            old(self).combined(
                final(self),
                r,
                match old(self).spec_value(a) {
                    Some(x) => log2_spec(x),
                    None => None,
                },
                a.repr,
            ),
    {
        let value = match self.value(a) {
            Some(x) => log2_value(x),
            None => None,
        };
        self.learn(value, a.repr)
    }

    /// (val & mask) << shift, if val is known, where a negative shift is a shift to the right;
    /// of the representation of val.
    fn mask_shift(&mut self, val: Expr, mask: u64, shift: i8) -> (r: Option<Expr>)
        ensures
            old(self).combined(
                final(self),
                r,
                match old(self).spec_value(val) {
                    Some(x) => Some(mask_shift_spec(x, mask, shift)),
                    None => None,
                },
                val.repr,
            ),
    {
        let value = match self.value(val) {
            Some(x) => Some(mask_shift_value(x, mask, shift)),
            None => None,
        };
        self.learn(value, val.repr)
    }

    fn emit_error_at(&mut self, span: ErrorSpan, message: &str)
        ensures
            final(self).values@ == old(self).values@,
    {
        let diagnostic = Diagnostic { span, message: String::from_str(message) };
        self.diagnostics.push(diagnostic);
        assert(diagnostic_views(self.diagnostics@) =~= diagnostic_views(old(self).diagnostics@).push(
            diagnostic@,
        ));
    }
}

} // verus!
