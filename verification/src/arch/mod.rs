//! What the encoders of all architectures share: the interface of an architecture and the
//! interface to the expression builder of the caller.
use crate::common::{stmt_views, Expr, Jump, JumpView, Size, Stmt, StmtView, Value};
use vstd::prelude::*;

pub mod eval;
pub mod x64;

verus! {

/// An architecture that can be assembled for.
pub trait Arch: Sized {
    /// The name of the architecture.
    spec fn spec_name(&self) -> Seq<char>;

    /// The architecture after its features have been set to those that `features` names.
    spec fn with_features(&self, features: Seq<Seq<char>>) -> Self;

    /// The names among `features` that do not set a feature of the architecture.
    spec fn unknown_features(&self, features: Seq<Seq<char>>) -> Seq<Seq<char>>;

    /// The statements that a relocation of `size` bytes to `reloc` takes in inline data.
    spec fn static_reloc(&self, reloc: JumpView, size: Size) -> Seq<StmtView>;

    /// The byte that alignment directives pad with.
    spec fn spec_default_align(&self) -> u8;

    fn name(&self) -> (r: &'static str)
        ensures
            r@ == self.spec_name(),
    ;

    /// Replaces the active features by those that `features` names. The names that do not
    /// set a feature change nothing; they are returned, in their order.
    fn set_features(&mut self, features: &[String]) -> (unknown: Vec<String>)
        ensures
            *final(self) == old(self).with_features(string_views(features@)),
            string_views(unknown@) == old(self).unknown_features(string_views(features@)),
    ;

    /// Appends the statements that a relocation of `size` bytes to `reloc` takes in inline
    /// data.
    fn handle_static_reloc(&self, stmts: &mut Vec<Stmt>, reloc: Jump, size: Size)
        ensures
            stmt_views(final(stmts)@) == stmt_views(old(stmts)@) + self.static_reloc(reloc@, size),
    ;

    /// The byte that alignment directives pad with.
    fn default_align(&self) -> (r: u8)
        ensures
            r == self.spec_default_align(),
    ;
}

/// What a list of strings holds.
pub open spec fn string_views(strings: Seq<String>) -> Seq<Seq<char>> {
    strings.map_values(|s: String| s@)
}

/// A reported error: where, and the message.
pub type Report = (ErrorSpan, Seq<char>);

/// A reported error.
#[derive(Debug, Clone, PartialEq, Eq)]
pub struct Diagnostic {
    pub span: ErrorSpan,
    pub message: String,
}

impl View for Diagnostic {
    type V = Report;

    open spec fn view(&self) -> Report {
        (self.span, self.message@)
    }
}

/// What a list of reported errors holds.
pub open spec fn diagnostic_views(diagnostics: Seq<Diagnostic>) -> Seq<Report> {
    diagnostics.map_values(|d: Diagnostic| d@)
}

/// What a builder can be asked to combine.
#[derive(Debug, Clone, Copy, PartialEq, Eq)]
pub enum Combine {
    /// a | b
    BitOr(Expr, Value),
    /// a & b
    BitAnd(Expr, Value),
    /// a ^ b
    BitXor(Expr, Value),
    /// a + b
    Add(Expr, Value),
    /// a * b
    Mul(Expr, Value),
    /// !a
    Neg(Expr),
    /// The logarithm of a to the base two.
    Log2(Expr),
    /// (val & mask) << shift, where a negative shift is a shift to the right.
    MaskShift(Expr, u64, i8),
}

impl Combine {
    /// The expression that is combined with something.
    pub open spec fn subject(self) -> Expr {
        match self {
            Combine::BitOr(a, _) => a,
            Combine::BitAnd(a, _) => a,
            Combine::BitXor(a, _) => a,
            Combine::Add(a, _) => a,
            Combine::Mul(a, _) => a,
            Combine::Neg(a) => a,
            Combine::Log2(a) => a,
            Combine::MaskShift(val, _, _) => val,
        }
    }
}

/// An environment that can dynamically build expressions from values.
///
/// These are used to integrate dynamic user expression into assembled code where values appear
/// only in a modified form. Every combinator may refuse, by returning `None`; none of them
/// appends a statement or reports an error. What a combinator answers depends on what it is
/// asked and on what the builder knows of the expressions, and on nothing else; answering
/// may add to what the builder knows.
pub trait BasicExprBuilder {
    /// What a builder knows of the expressions.
    type Knowledge;

    /// The statements that have been appended.
    spec fn emitted(&self) -> Seq<StmtView>;

    /// The errors that have been reported: where, and the message.
    spec fn reported(&self) -> Seq<Report>;

    /// What the builder knows of the expressions.
    spec fn knowledge(&self) -> Self::Knowledge;

    /// What a builder that knows `known` answers when it is asked to combine: the expression
    /// that stands for the combination, or `None` if it refuses.
    spec fn answer(known: Self::Knowledge, request: Combine) -> Option<Expr>;

    /// What a builder that knew `known` knows after it has been asked to combine.
    spec fn after(known: Self::Knowledge, request: Combine) -> Self::Knowledge;

    /// Append a new statement.
    fn push(&mut self, stmt: Stmt)
        ensures
            final(self).emitted() == old(self).emitted().push(stmt@),
            final(self).reported() == old(self).reported(),
            final(self).knowledge() == old(self).knowledge(),
    ;

    /// a | b
    fn bit_or(&mut self, a: Expr, b: Value) -> (r: Option<Expr>)
        ensures
            final(self).emitted() == old(self).emitted(),
            final(self).reported() == old(self).reported(),
            r == Self::answer(old(self).knowledge(), Combine::BitOr(a, b)),
            final(self).knowledge() == Self::after(old(self).knowledge(), Combine::BitOr(a, b)),
    ;

    /// a & b
    fn bit_and(&mut self, a: Expr, b: Value) -> (r: Option<Expr>)
        ensures
            final(self).emitted() == old(self).emitted(),
            final(self).reported() == old(self).reported(),
            r == Self::answer(old(self).knowledge(), Combine::BitAnd(a, b)),
            final(self).knowledge() == Self::after(old(self).knowledge(), Combine::BitAnd(a, b)),
    ;

    /// a ^ b
    fn bit_xor(&mut self, a: Expr, b: Value) -> (r: Option<Expr>)
        ensures
            final(self).emitted() == old(self).emitted(),
            final(self).reported() == old(self).reported(),
            r == Self::answer(old(self).knowledge(), Combine::BitXor(a, b)),
            final(self).knowledge() == Self::after(old(self).knowledge(), Combine::BitXor(a, b)),
    ;

    /// a + b
    fn add(&mut self, a: Expr, b: Value) -> (r: Option<Expr>)
        ensures
            final(self).emitted() == old(self).emitted(),
            final(self).reported() == old(self).reported(),
            r == Self::answer(old(self).knowledge(), Combine::Add(a, b)),
            final(self).knowledge() == Self::after(old(self).knowledge(), Combine::Add(a, b)),
    ;

    /// a * b
    fn mul(&mut self, a: Expr, b: Value) -> (r: Option<Expr>)
        ensures
            final(self).emitted() == old(self).emitted(),
            final(self).reported() == old(self).reported(),
            r == Self::answer(old(self).knowledge(), Combine::Mul(a, b)),
            final(self).knowledge() == Self::after(old(self).knowledge(), Combine::Mul(a, b)),
    ;

    /// !a
    fn neg(&mut self, a: Expr) -> (r: Option<Expr>)
        ensures
            final(self).emitted() == old(self).emitted(),
            final(self).reported() == old(self).reported(),
            r == Self::answer(old(self).knowledge(), Combine::Neg(a)),
            final(self).knowledge() == Self::after(old(self).knowledge(), Combine::Neg(a)),
    ;

    /// Log2, mostly used to encode scalings.
    fn log2(&mut self, a: Expr) -> (r: Option<Expr>)
        ensures
            final(self).emitted() == old(self).emitted(),
            final(self).reported() == old(self).reported(),
            r == Self::answer(old(self).knowledge(), Combine::Log2(a)),
            final(self).knowledge() == Self::after(old(self).knowledge(), Combine::Log2(a)),
    ;

    /// (val & mask) << shift, where a negative shift is a shift to the right.
    fn mask_shift(&mut self, val: Expr, mask: u64, shift: i8) -> (r: Option<Expr>)
        ensures
            final(self).emitted() == old(self).emitted(),
            final(self).reported() == old(self).reported(),
            r == Self::answer(old(self).knowledge(), Combine::MaskShift(val, mask, shift)),
            final(self).knowledge() == Self::after(old(self).knowledge(), Combine::MaskShift(val, mask, shift)),
    ;

    /// Emit an error message.
    /// When any error is generated then the instruction compilation is expected to fail.
    fn emit_error_at(&mut self, span: ErrorSpan, message: &str)
        ensures
            final(self).emitted() == old(self).emitted(),
            final(self).reported() == old(self).reported().push((span, message@)),
            final(self).knowledge() == old(self).knowledge(),
    ;
}

#[derive(Debug, Clone, Copy, PartialEq, Eq)]
pub enum Error {
    /// Expressions had to be combined but that failed.
    BadExprCombinator {
        /// The expression that should have been combined with some other value.
        expr: Expr,
    },
}

/// An opaque description of an error origin.
#[derive(Debug, Clone, Copy, PartialEq, Eq, Structural)]
pub enum ErrorSpan {
    InstructionPart { idx: usize },
    Argument { idx: usize },
}

impl ErrorSpan {
    pub fn instruction_part(idx: usize) -> (r: Self)
        ensures
            r == (ErrorSpan::InstructionPart { idx }),
    {
        ErrorSpan::InstructionPart { idx }
    }

    pub fn argument(idx: usize) -> (r: Self)
        ensures
            r == (ErrorSpan::Argument { idx }),
    {
        ErrorSpan::Argument { idx }
    }
}

/// What becomes of the answer of a combinator that was asked to combine `a` with something:
/// the expression that it built, or the error that names `a`.
pub fn combined_or_err(combined: Option<Expr>, a: Expr) -> (r: Result<Expr, Error>)
    ensures
        r == match combined {
            Some(expr) => Ok::<Expr, Error>(expr),
            None => Err(Error::BadExprCombinator { expr: a }),
        },
{
    match combined {
        Some(expr) => Ok(expr),
        None => Err(Error::BadExprCombinator { expr: a }),
    }
}

/// The combinators that are built from those of a `BasicExprBuilder`.
///
/// None of them appends a statement or reports an error. What they give is what the builder
/// answers to the requests that they make of it, one after the other. Those that return a
/// `Result` fail exactly if the builder refuses a request, with the error that names the
/// expression that was to be combined.
pub trait BasicExprBuilderExt: BasicExprBuilder {
    fn bit_or_else_err(&mut self, a: Expr, b: Value) -> (r: Result<Expr, Error>)
        ensures
            final(self).emitted() == old(self).emitted(),
            final(self).reported() == old(self).reported(),
            (r, final(self).knowledge()) == asked_else_err::<Self>(old(self).knowledge(), Combine::BitOr(a, b)),
    {
        let combined = self.bit_or(a, b);
        combined_or_err(combined, a)
    }

    fn bit_and_else_err(&mut self, a: Expr, b: Value) -> (r: Result<Expr, Error>)
        ensures
            final(self).emitted() == old(self).emitted(),
            final(self).reported() == old(self).reported(),
            (r, final(self).knowledge()) == asked_else_err::<Self>(old(self).knowledge(), Combine::BitAnd(a, b)),
    {
        let combined = self.bit_and(a, b);
        combined_or_err(combined, a)
    }

    fn bit_xor_else_err(&mut self, a: Expr, b: Value) -> (r: Result<Expr, Error>)
        ensures
            final(self).emitted() == old(self).emitted(),
            final(self).reported() == old(self).reported(),
            (r, final(self).knowledge()) == asked_else_err::<Self>(old(self).knowledge(), Combine::BitXor(a, b)),
    {
        let combined = self.bit_xor(a, b);
        combined_or_err(combined, a)
    }

    fn neg_else_err(&mut self, a: Expr) -> (r: Result<Expr, Error>)
        ensures
            final(self).emitted() == old(self).emitted(),
            final(self).reported() == old(self).reported(),
            (r, final(self).knowledge()) == asked_else_err::<Self>(old(self).knowledge(), Combine::Neg(a)),
    {
        let combined = self.neg(a);
        combined_or_err(combined, a)
    }

    fn add_else_err(&mut self, a: Expr, b: Value) -> (r: Result<Expr, Error>)
        ensures
            final(self).emitted() == old(self).emitted(),
            final(self).reported() == old(self).reported(),
            (r, final(self).knowledge()) == asked_else_err::<Self>(old(self).knowledge(), Combine::Add(a, b)),
    {
        let combined = self.add(a, b);
        combined_or_err(combined, a)
    }

    fn mul_else_err(&mut self, a: Expr, b: Value) -> (r: Result<Expr, Error>)
        ensures
            final(self).emitted() == old(self).emitted(),
            final(self).reported() == old(self).reported(),
            (r, final(self).knowledge()) == asked_else_err::<Self>(old(self).knowledge(), Combine::Mul(a, b)),
    {
        let combined = self.mul(a, b);
        combined_or_err(combined, a)
    }

    /// The sum of the expressions, starting from the byte zero: that byte itself if there are
    /// none. The builder is asked to add each expression to the sum so far, see
    /// [`sum_outcome`], up to the first addition that it refuses.
    fn add_many(&mut self, exprs: &[Expr]) -> (r: Option<Value>)
        ensures
            final(self).emitted() == old(self).emitted(),
            final(self).reported() == old(self).reported(),
            (r, final(self).knowledge()) == answered(sum_outcome::<Self>(old(self).knowledge(), exprs@)),
    {
        let mut res = Value::Byte(0);
        let mut i: usize = 0;
        while i < exprs.len()
            invariant
                i <= exprs.len(),
                self.emitted() == old(self).emitted(),
                self.reported() == old(self).reported(),
                sum_outcome::<Self>(old(self).knowledge(), exprs@) == sum_from::<Self>(
                    self.knowledge(),
                    exprs@,
                    i as int,
                    res,
                ),
            decreases exprs.len() - i,
        {
            match self.add(exprs[i], res) {
                Some(sum) => {
                    res = Value::Expr(sum);
                },
                None => {
                    return None;
                },
            }
            i += 1;
        }
        Some(res)
    }

    /// The sum of the expressions, starting from the byte zero: that byte itself if there are
    /// none. The builder is asked to add each expression to the sum so far, see
    /// [`sum_outcome`]; the error names the first expression that it refuses to add.
    fn add_many_else_err(&mut self, exprs: &[Expr]) -> (r: Result<Value, Error>)
        ensures
            final(self).emitted() == old(self).emitted(),
            final(self).reported() == old(self).reported(),
            (r, final(self).knowledge()) == sum_outcome::<Self>(old(self).knowledge(), exprs@),
    {
        let mut res = Value::Byte(0);
        let mut i: usize = 0;
        while i < exprs.len()
            invariant
                i <= exprs.len(),
                self.emitted() == old(self).emitted(),
                self.reported() == old(self).reported(),
                sum_outcome::<Self>(old(self).knowledge(), exprs@) == sum_from::<Self>(
                    self.knowledge(),
                    exprs@,
                    i as int,
                    res,
                ),
            decreases exprs.len() - i,
        {
            match self.add_else_err(exprs[i], res) {
                Ok(sum) => {
                    res = Value::Expr(sum);
                },
                Err(e) => {
                    return Err(e);
                },
            }
            i += 1;
        }
        Ok(res)
    }

    /// reg | ((val & mask) << shift)
    /// `val` is not a Value since then the lib could already constant fold until `|`.
    fn mask_shift_or(&mut self, reg: Value, val: Expr, mask: u64, shift: i8) -> (r: Option<Expr>)
        ensures
            final(self).emitted() == old(self).emitted(),
            final(self).reported() == old(self).reported(),
            (r, final(self).knowledge()) == answered(
                mask_shift_or_outcome::<Self>(old(self).knowledge(), reg, val, mask, shift),
            ),
    {
        match self.mask_shift(val, mask, shift) {
            Some(operand) => self.bit_or(operand, reg),
            None => None,
        }
    }

    /// reg | ((val & mask) << shift)
    fn mask_shift_or_else_err(&mut self, reg: Value, val: Expr, mask: u64, shift: i8) -> (r: Result<
        Expr,
        Error,
    >)
        ensures
            final(self).emitted() == old(self).emitted(),
            final(self).reported() == old(self).reported(),
            (r, final(self).knowledge()) == mask_shift_or_outcome::<Self>(
                old(self).knowledge(),
                reg,
                val,
                mask,
                shift,
            ),
    {
        match self.mask_shift_else_err(val, mask, shift) {
            Ok(operand) => self.bit_or_else_err(operand, reg),
            Err(e) => Err(e),
        }
    }

    /// reg & !((val & mask) << shift)
    /// `val` is not a Value since then the lib could already constant fold until `&`.
    fn mask_shift_inverted_and(&mut self, reg: Value, val: Expr, mask: u64, shift: i8) -> (r:
        Option<Expr>)
        ensures
            final(self).emitted() == old(self).emitted(),
            final(self).reported() == old(self).reported(),
            (r, final(self).knowledge()) == answered(
                mask_shift_inverted_and_outcome::<Self>(old(self).knowledge(), reg, val, mask, shift),
            ),
    {
        match self.mask_shift(val, mask, shift) {
            Some(operand) => match self.neg(operand) {
                Some(inverted) => self.bit_and(inverted, reg),
                None => None,
            },
            None => None,
        }
    }

    /// reg & !((val & mask) << shift)
    fn mask_shift_inverted_and_else_err(
        &mut self,
        reg: Value,
        val: Expr,
        mask: u64,
        shift: i8,
    ) -> (r: Result<Expr, Error>)
        ensures
            final(self).emitted() == old(self).emitted(),
            final(self).reported() == old(self).reported(),
            (r, final(self).knowledge()) == mask_shift_inverted_and_outcome::<Self>(
                old(self).knowledge(),
                reg,
                val,
                mask,
                shift,
            ),
    {
        match self.mask_shift_else_err(val, mask, shift) {
            Ok(operand) => match self.neg_else_err(operand) {
                Ok(inverted) => self.bit_and_else_err(inverted, reg),
                Err(e) => Err(e),
            },
            Err(e) => Err(e),
        }
    }

    fn log2_else_err(&mut self, a: Expr) -> (r: Result<Expr, Error>)
        ensures
            final(self).emitted() == old(self).emitted(),
            final(self).reported() == old(self).reported(),
            (r, final(self).knowledge()) == asked_else_err::<Self>(old(self).knowledge(), Combine::Log2(a)),
    {
        let combined = self.log2(a);
        combined_or_err(combined, a)
    }

    /// The scale bits of a scale that is only known to the caller, and the byte that holds
    /// them: the first expression is the logarithm of `scale`, the second is
    /// rest | ((log2(scale) & 3) << 6).
    fn dynscale(&mut self, scale: Expr, rest: Value) -> (r: Result<(Expr, Expr), Error>)
        ensures
            final(self).emitted() == old(self).emitted(),
            final(self).reported() == old(self).reported(),
            (r, final(self).knowledge()) == dynscale_outcome::<Self>(old(self).knowledge(), scale, rest),
    {
        match self.log2_else_err(scale) {
            Ok(bits) => match self.mask_shift_or_else_err(rest, bits, 3, 6) {
                Ok(byte) => Ok((bits, byte)),
                Err(e) => Err(e),
            },
            Err(e) => Err(e),
        }
    }

    fn mask_shift_else_err(&mut self, val: Expr, mask: u64, shift: i8) -> (r: Result<Expr, Error>)
        ensures
            final(self).emitted() == old(self).emitted(),
            final(self).reported() == old(self).reported(),
            (r, final(self).knowledge()) == asked_else_err::<Self>(old(self).knowledge(), Combine::MaskShift(val, mask, shift)),
    {
        let combined = self.mask_shift(val, mask, shift);
        combined_or_err(combined, val)
    }
}

impl<T: BasicExprBuilder + ?Sized> BasicExprBuilderExt for T {

}

/// What becomes of the answer of a builder that was asked to combine `a` with something:
/// the expression that it built, or the error that names `a`.
pub open spec fn or_err(answer: Option<Expr>, a: Expr) -> Result<Expr, Error> {
    match answer {
        Some(expr) => Ok(expr),
        None => Err(Error::BadExprCombinator { expr: a }),
    }
}

/// What a builder that knows `known` gives when it is asked to combine, and what it knows
/// afterwards: the expression that it answers with, or the error that names the expression
/// that was to be combined.
pub open spec fn asked_else_err<B: BasicExprBuilder + ?Sized>(known: B::Knowledge, request: Combine) -> (
    Result<Expr, Error>,
    B::Knowledge,
) {
    (or_err(B::answer(known, request), request.subject()), B::after(known, request))
}

/// An outcome without the error: what was built, or `None` where the builder refused.
pub open spec fn answered<T, K>(outcome: (Result<T, Error>, K)) -> (Option<T>, K) {
    (
        match outcome.0 {
            Ok(built) => Some(built),
            Err(_) => None,
        },
        outcome.1,
    )
}

/// What a builder that knows `known` gives for the sum of `sum` and the expressions from
/// `from` on, and what it knows afterwards: it is asked to add each expression to the sum so
/// far, in their order, and is not asked again once it has refused.
pub open spec fn sum_from<B: BasicExprBuilder + ?Sized>(
    known: B::Knowledge,
    exprs: Seq<Expr>,
    from: int,
    sum: Value,
) -> (Result<Value, Error>, B::Knowledge)
    decreases exprs.len() - from,
{
    if from < 0 || from >= exprs.len() {
        (Ok(sum), known)
    } else {
        let step = asked_else_err::<B>(known, Combine::Add(exprs[from], sum));
        match step.0 {
            Ok(next) => sum_from::<B>(step.1, exprs, from + 1, Value::Expr(next)),
            Err(e) => (Err(e), step.1),
        }
    }
}

/// What a builder that knows `known` gives for the sum of the expressions, starting from the
/// byte zero, and what it knows afterwards.
pub open spec fn sum_outcome<B: BasicExprBuilder + ?Sized>(known: B::Knowledge, exprs: Seq<Expr>) -> (
    Result<Value, Error>,
    B::Knowledge,
) {
    sum_from::<B>(known, exprs, 0, Value::byte_spec(0))
}

/// What a builder that knows `known` gives for reg | ((val & mask) << shift), and what it
/// knows afterwards: it is asked to mask and shift `val`, and then to combine what it
/// answers with `reg` by or. It is not asked again once it has refused.
pub open spec fn mask_shift_or_outcome<B: BasicExprBuilder + ?Sized>(
    known: B::Knowledge,
    reg: Value,
    val: Expr,
    mask: u64,
    shift: i8,
) -> (Result<Expr, Error>, B::Knowledge) {
    let first = asked_else_err::<B>(known, Combine::MaskShift(val, mask, shift));
    match first.0 {
        Ok(operand) => asked_else_err::<B>(first.1, Combine::BitOr(operand, reg)),
        Err(e) => first,
    }
}

/// What a builder that knows `known` gives for reg & !((val & mask) << shift), and what it
/// knows afterwards: it is asked to mask and shift `val`, then to invert what it answers,
/// and then to combine what it answers to that with `reg` by and. It is not asked again once
/// it has refused.
pub open spec fn mask_shift_inverted_and_outcome<B: BasicExprBuilder + ?Sized>(
    known: B::Knowledge,
    reg: Value,
    val: Expr,
    mask: u64,
    shift: i8,
) -> (Result<Expr, Error>, B::Knowledge) {
    let first = asked_else_err::<B>(known, Combine::MaskShift(val, mask, shift));
    match first.0 {
        Ok(operand) => {
            let second = asked_else_err::<B>(first.1, Combine::Neg(operand));
            match second.0 {
                Ok(inverted) => asked_else_err::<B>(second.1, Combine::BitAnd(inverted, reg)),
                Err(e) => second,
            }
        },
        Err(e) => first,
    }
}

/// What a builder that knows `known` gives for the scale bits of `scale` and the byte
/// `rest` with these bits, and what it knows afterwards: it is asked for the logarithm of
/// `scale`, and then for rest | ((logarithm & 3) << 6). The outcome holds the logarithm and
/// the byte.
pub open spec fn dynscale_outcome<B: BasicExprBuilder + ?Sized>(
    known: B::Knowledge,
    scale: Expr,
    rest: Value,
) -> (Result<(Expr, Expr), Error>, B::Knowledge) {
    let first = asked_else_err::<B>(known, Combine::Log2(scale));
    match first.0 {
        Ok(bits) => {
            let second = mask_shift_or_outcome::<B>(first.1, rest, bits, 3, 6);
            (
                match second.0 {
                    Ok(byte) => Ok((bits, byte)),
                    Err(e) => Err(e),
                },
                second.1,
            )
        },
        Err(e) => (Err(e), first.1),
    }
}

/// The architecture that stands for none: it has no features and no relocations.
#[derive(Clone, Debug, PartialEq, Eq)]
pub struct DummyArch {
    name: &'static str,
}

impl DummyArch {
    /// The architecture that stands for none under a name.
    pub closed spec fn spec_new(name: &'static str) -> DummyArch {
        DummyArch { name }
    }

    pub fn new(name: &'static str) -> (r: DummyArch)
        ensures
            r == DummyArch::spec_new(name),
            r.spec_name() == name@,
    {
        DummyArch { name }
    }
}

impl Arch for DummyArch {
    closed spec fn spec_name(&self) -> Seq<char> {
        self.name@
    }

    open spec fn with_features(&self, features: Seq<Seq<char>>) -> Self {
        *self
    }

    open spec fn unknown_features(&self, features: Seq<Seq<char>>) -> Seq<Seq<char>> {
        features
    }

    open spec fn static_reloc(&self, reloc: JumpView, size: Size) -> Seq<StmtView> {
        seq![]
    }

    open spec fn spec_default_align(&self) -> u8 {
        0
    }

    fn name(&self) -> (r: &'static str) {
        self.name
    }

    /// No features can be set while the architecture is undefined: all names are returned.
    fn set_features(&mut self, features: &[String]) -> (unknown: Vec<String>) {
        let mut unknown: Vec<String> = Vec::new();
        let ghost views = string_views(features@);
        let mut i: usize = 0;
        assert(string_views(unknown@) =~= views.take(0));
        while i < features.len()
            invariant
                i <= features.len(),
                views == string_views(features@),
                string_views(unknown@) == views.take(i as int),
            decreases features.len() - i,
        {
            let ghost before = string_views(unknown@);
            let name = features[i].clone();
            assert(views[i as int] == features@[i as int]@);
            unknown.push(name);
            assert(string_views(unknown@) =~= before.push(views[i as int]));
            i += 1;
            assert(string_views(unknown@) =~= views.take(i as int));
        }
        assert(views.take(i as int) =~= views);
        unknown
    }

    /// Nothing is appended while the architecture is undefined.
    fn handle_static_reloc(&self, stmts: &mut Vec<Stmt>, reloc: Jump, size: Size) {
        assert(stmt_views(stmts@) =~= stmt_views(stmts@) + Seq::<StmtView>::empty());
    }

    fn default_align(&self) -> (r: u8) {
        0
    }
}

/// One of the architectures that there are.
#[derive(Clone, Debug, PartialEq, Eq)]
pub enum AnyArch {
    X64(x64::Archx64),
    X86(x64::Archx86),
    Unknown(DummyArch),
}

impl Arch for AnyArch {
    open spec fn spec_name(&self) -> Seq<char> {
        match *self {
            AnyArch::X64(arch) => arch.spec_name(),
            AnyArch::X86(arch) => arch.spec_name(),
            AnyArch::Unknown(arch) => arch.spec_name(),
        }
    }

    open spec fn with_features(&self, features: Seq<Seq<char>>) -> Self {
        match *self {
            AnyArch::X64(arch) => AnyArch::X64(arch.with_features(features)),
            AnyArch::X86(arch) => AnyArch::X86(arch.with_features(features)),
            AnyArch::Unknown(arch) => AnyArch::Unknown(arch.with_features(features)),
        }
    }

    open spec fn unknown_features(&self, features: Seq<Seq<char>>) -> Seq<Seq<char>> {
        match *self {
            AnyArch::X64(arch) => arch.unknown_features(features),
            AnyArch::X86(arch) => arch.unknown_features(features),
            AnyArch::Unknown(arch) => arch.unknown_features(features),
        }
    }

    open spec fn static_reloc(&self, reloc: JumpView, size: Size) -> Seq<StmtView> {
        match *self {
            AnyArch::X64(arch) => arch.static_reloc(reloc, size),
            AnyArch::X86(arch) => arch.static_reloc(reloc, size),
            AnyArch::Unknown(arch) => arch.static_reloc(reloc, size),
        }
    }

    open spec fn spec_default_align(&self) -> u8 {
        match *self {
            AnyArch::X64(arch) => arch.spec_default_align(),
            AnyArch::X86(arch) => arch.spec_default_align(),
            AnyArch::Unknown(arch) => arch.spec_default_align(),
        }
    }

    fn name(&self) -> (r: &'static str) {
        match self {
            AnyArch::X64(arch) => arch.name(),
            AnyArch::X86(arch) => arch.name(),
            AnyArch::Unknown(arch) => arch.name(),
        }
    }

    fn set_features(&mut self, features: &[String]) -> (unknown: Vec<String>) {
        match self {
            AnyArch::X64(arch) => arch.set_features(features),
            AnyArch::X86(arch) => arch.set_features(features),
            AnyArch::Unknown(arch) => arch.set_features(features),
        }
    }

    fn handle_static_reloc(&self, stmts: &mut Vec<Stmt>, reloc: Jump, size: Size) {
        match self {
            AnyArch::X64(arch) => arch.handle_static_reloc(stmts, reloc, size),
            AnyArch::X86(arch) => arch.handle_static_reloc(stmts, reloc, size),
            AnyArch::Unknown(arch) => arch.handle_static_reloc(stmts, reloc, size),
        }
    }

    fn default_align(&self) -> (r: u8) {
        match self {
            AnyArch::X64(arch) => arch.default_align(),
            AnyArch::X86(arch) => arch.default_align(),
            AnyArch::Unknown(arch) => arch.default_align(),
        }
    }
}

/// Whether `name` is the name of an architecture.
pub open spec fn is_arch_name(name: Seq<char>) -> bool {
    name == "x64"@ || name == "x86"@ || name == "unknown"@
}

/// The architecture with a name, with all its features: `x64`, `x86`, or `unknown` for none.
pub open spec fn arch_of_name(name: Seq<char>) -> Option<AnyArch> {
    if name == "x64"@ {
        Some(AnyArch::X64(x64::Archx64::spec_new(x64::x64data::Features::spec_all())))
    } else if name == "x86"@ {
        Some(AnyArch::X86(x64::Archx86::spec_new(x64::x64data::Features::spec_all())))
    } else if name == "unknown"@ {
        Some(AnyArch::Unknown(DummyArch::spec_new("unknown")))
    } else {
        None
    }
}

/// The architecture with a name, with all its features.
pub fn from_str(s: &str) -> (r: Option<AnyArch>)
    ensures
        r == arch_of_name(s@),
        r is Some == is_arch_name(s@),
{
    if x64::x64data::str_eq(s, "x64") {
        let arch = x64::Archx64::default();
        proof {
            broadcast use x64::Archx64::lemma_spec_new;
            x64::Archx64::lemma_determined(arch, x64::Archx64::spec_new(x64::x64data::Features::spec_all()));
        }
        Some(AnyArch::X64(arch))
    } else if x64::x64data::str_eq(s, "x86") {
        let arch = x64::Archx86::default();
        proof {
            broadcast use x64::Archx86::lemma_spec_new;
            x64::Archx86::lemma_determined(arch, x64::Archx86::spec_new(x64::x64data::Features::spec_all()));
        }
        Some(AnyArch::X86(arch))
    } else if x64::x64data::str_eq(s, "unknown") {
        Some(AnyArch::Unknown(DummyArch::new("unknown")))
    } else {
        None
    }
}

/// Setting features does not build on what was set before: after the features have been
/// set to those of one list and then to those of another, the architecture is what it is
/// after they have been set to those of the other list alone. So setting the same features
/// twice is setting them once.
pub proof fn lemma_set_features_replaces(
    arch: AnyArch,
    first: Seq<Seq<char>>,
    second: Seq<Seq<char>>,
)
    ensures
        arch.with_features(first).with_features(second) == arch.with_features(second),
        arch.with_features(second).with_features(second) == arch.with_features(second),
{
}

/// After the features of an x64 or x86 architecture have been set, exactly the features are
/// active that the names give: those of the names that are known.
pub proof fn lemma_set_features_active(arch: AnyArch, names: Seq<Seq<char>>)
    ensures
        match arch.with_features(names) {
            AnyArch::X64(after) => arch is X64 && after.active() == x64::x64data::Features::of_names(names),
            AnyArch::X86(after) => arch is X86 && after.active() == x64::x64data::Features::of_names(names),
            AnyArch::Unknown(after) => arch == AnyArch::Unknown(after),
        },
{
    broadcast use x64::Archx64::lemma_spec_new, x64::Archx86::lemma_spec_new;

}

} // verus!
