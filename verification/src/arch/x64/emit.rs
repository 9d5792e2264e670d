//! What an instruction is made of before the expression builder of the caller has been asked:
//! statements that are known, and bytes that have to be combined with expressions.
use crate::arch::eval::{bits_in, mask_shift_spec, Evaluator};
use crate::arch::{
    asked_else_err, dynscale_outcome, mask_shift_inverted_and_outcome, mask_shift_or_outcome,
    BasicExprBuilder, BasicExprBuilderExt, Combine, Error as ExprBuilderError,
};
use crate::common::{Expr, Number, NumericRepr, Size, Stmt, StmtView, Value};
use vstd::prelude::*;

verus! {

/// A change to a byte by an expression of the caller.
#[derive(Debug, Clone, Copy, PartialEq, Eq)]
pub enum Patch {
    /// byte | ((expr & mask) << shift), where a negative shift is a shift to the right.
    Or { expr: Expr, mask: u64, shift: i8 },
    /// byte & !((expr & mask) << shift), where a negative shift is a shift to the right.
    AndNot { expr: Expr, mask: u64, shift: i8 },
    /// byte | value
    OrByte { value: u8 },
}

impl Patch {
    /// The expression that takes part in the change, if one does.
    pub open spec fn expr(self) -> Option<Expr> {
        match self {
            Patch::Or { expr, .. } => Some(expr),
            Patch::AndNot { expr, .. } => Some(expr),
            Patch::OrByte { .. } => None,
        }
    }

    /// What the change makes of `byte` if its expression has the value `value`.
    pub open spec fn apply(self, byte: u64, value: u64) -> u64 {
        match self {
            Patch::Or { mask, shift, .. } => mask_shift_spec(value, mask, shift) | byte,
            Patch::AndNot { mask, shift, .. } => !mask_shift_spec(value, mask, shift) & byte,
            Patch::OrByte { value: bits } => byte | bits as u64,
        }
    }
}

/// What the changes of `patches`, in their order, make of the byte `base` if the expressions
/// have the values that `values` gives them.
pub open spec fn patched(base: u8, patches: Seq<Patch>, values: spec_fn(Expr) -> u64) -> u64
    decreases patches.len(),
{
    if patches.len() == 0 {
        base as u64
    } else {
        let last = patches.last();
        last.apply(
            patched(base, patches.drop_last(), values),
            match last.expr() {
                Some(expr) => values(expr),
                None => 0,
            },
        )
    }
}

/// One piece of an instruction.
#[derive(Debug, Clone, PartialEq, Eq)]
pub enum Emit {
    /// A statement that is known.
    Stmt(Stmt),
    /// The byte `base` with the changes of `patches`, in their order. The result has to be of
    /// the size of a byte; with `coerce` it is made so.
    Byte { base: u8, patches: Vec<Patch>, coerce: bool },
    /// The byte that holds the scale, the index and the base of an address, where the scale
    /// is `scale` times an expression: the byte `base` with the changes of `patches`, and the
    /// scale bits that the caller computes.
    ScaledSib { base: u8, patches: Vec<Patch>, scale: u8, scale_expr: Expr },
}

/// What a piece of an instruction holds.
pub enum EmitView {
    Stmt(StmtView),
    Byte { base: u8, patches: Seq<Patch>, coerce: bool },
    ScaledSib { base: u8, patches: Seq<Patch>, scale: u8, scale_expr: Expr },
}

impl View for Emit {
    type V = EmitView;

    open spec fn view(&self) -> EmitView {
        match *self {
            Emit::Stmt(stmt) => EmitView::Stmt(stmt@),
            Emit::Byte { base, patches, coerce } => EmitView::Byte { base, patches: patches@, coerce },
            Emit::ScaledSib { base, patches, scale, scale_expr } => EmitView::ScaledSib {
                base,
                patches: patches@,
                scale,
                scale_expr,
            },
        }
    }
}

/// What the pieces of an instruction hold.
pub open spec fn emit_views(plan: Seq<Emit>) -> Seq<EmitView> {
    plan.map_values(|e: Emit| e@)
}

impl EmitView {
    /// The piece for a byte that is known.
    pub open spec fn byte(value: u8) -> EmitView {
        EmitView::Byte { base: value, patches: Seq::empty(), coerce: false }
    }

    /// The statement that the piece stands for, if no expression takes part in it.
    pub open spec fn literal(self) -> Option<StmtView> {
        match self {
            EmitView::Stmt(stmt) => Some(stmt),
            EmitView::Byte { base, patches, .. } => if patches.len() == 0 {
                Some(StmtView::Const(Value::byte_spec(base)))
            } else {
                None
            },
            EmitView::ScaledSib { .. } => None,
        }
    }
}

/// Whether no expression takes part in any of the pieces.
pub open spec fn all_literal(plan: Seq<EmitView>) -> bool {
    forall|i: int| 0 <= i < plan.len() ==> (#[trigger] plan[i]).literal() is Some
}

/// The statements that the pieces stand for, where no expression takes part in them.
pub open spec fn literals(plan: Seq<EmitView>) -> Seq<StmtView> {
    Seq::new(plan.len(), |i: int| plan[i].literal().unwrap())
}

/// The piece for a byte that is known.
pub fn literal_byte(value: u8) -> (r: Emit)
    ensures
        r@ == EmitView::byte(value),
{
    Emit::Byte { base: value, patches: Vec::new(), coerce: false }
}

/// What becomes of a byte that went through the changes of a piece: the statement that holds
/// it, or the error if it is an expression that is not of the size of a byte. With `coerce`
/// it is given the representation of an unsigned byte first, if it can hold it.
pub open spec fn finished_byte(value: Value, coerce: bool) -> Result<StmtView, ExprBuilderError> {
    let coerced = if coerce {
        match value.spec_convert(NumericRepr::unsigned_spec(Size::BYTE)) {
            Some(byte) => byte,
            None => value,
        }
    } else {
        value
    };
    match coerced {
        Value::Expr(expr) => if expr.repr.size == Size::BYTE {
            Ok(StmtView::Const(coerced))
        } else {
            Err(ExprBuilderError::BadExprCombinator { expr })
        },
        Value::Number(_) => Ok(StmtView::Const(coerced)),
    }
}

/// What becomes of a byte that went through the changes of a piece.
pub fn finish_byte(value: Value, coerce: bool) -> (r: Result<Stmt, ExprBuilderError>)
    ensures
        match finished_byte(value, coerce) {
            Ok(stmt) => r matches Ok(s) && s@ == stmt,
            Err(e) => r == Err::<Stmt, ExprBuilderError>(e),
        },
{
    let coerced = if coerce {
        match value.convert(NumericRepr::unsigned(Size::BYTE)) {
            Some(byte) => byte,
            None => value,
        }
    } else {
        value
    };
    match coerced {
        Value::Expr(expr) => if expr.repr.size == Size::BYTE {
            Ok(Stmt::Const(coerced))
        } else {
            Err(ExprBuilderError::BadExprCombinator { expr })
        },
        Value::Number(_) => Ok(Stmt::Const(coerced)),
    }
}

/// A byte that is known stays what it is when it is finished.
pub proof fn lemma_finished_literal(base: u8, coerce: bool)
    ensures
        finished_byte(Value::byte_spec(base), coerce) == Ok::<StmtView, ExprBuilderError>(
            StmtView::Const(Value::byte_spec(base)),
        ),
{
    broadcast use Number::lemma_spec_new;

    let nr = Number::byte_spec(base);
    let repr = NumericRepr::unsigned_spec(Size::BYTE);
    assert(nr.as_int() == base as int);
    assert(repr.holds(nr.as_int()));
    Number::lemma_determined(nr.with_repr(repr), nr);
}

/// What a builder that knows `known` makes of the value `value` by one change, and what it
/// knows afterwards.
///
/// For byte | ((expr & mask) << shift) and for byte & !((expr & mask) << shift) the builder
/// is asked as [`mask_shift_or_outcome`] and [`mask_shift_inverted_and_outcome`] say, with
/// the value in the place of the byte. For byte | bits the builder is asked to combine by
/// or if the value is an expression; the bits are put into a number without asking.
pub open spec fn patch_outcome<B: BasicExprBuilder + ?Sized>(known: B::Knowledge, value: Value, patch: Patch) -> (
    Result<Value, ExprBuilderError>,
    B::Knowledge,
) {
    match patch {
        Patch::Or { expr, mask, shift } => as_value(
            mask_shift_or_outcome::<B>(known, value, expr, mask, shift),
        ),
        Patch::AndNot { expr, mask, shift } => as_value(
            mask_shift_inverted_and_outcome::<B>(known, value, expr, mask, shift),
        ),
        Patch::OrByte { value: bits } => match value {
            Value::Expr(expr) => as_value(
                asked_else_err::<B>(known, Combine::BitOr(expr, Value::byte_spec(bits))),
            ),
            Value::Number(nr) => (Ok(Value::byte_spec(((nr.bits() & 0xFF) as u8) | bits)), known),
        },
    }
}

/// An outcome with its expression as a value.
pub open spec fn as_value<K>(outcome: (Result<Expr, ExprBuilderError>, K)) -> (
    Result<Value, ExprBuilderError>,
    K,
) {
    (
        match outcome.0 {
            Ok(expr) => Ok(Value::Expr(expr)),
            Err(e) => Err(e),
        },
        outcome.1,
    )
}

/// What a builder that knows `known` makes of the value `value` by the changes from `from`
/// on, in their order, and what it knows afterwards. It is not asked again once it has
/// refused.
pub open spec fn patched_from<B: BasicExprBuilder + ?Sized>(
    known: B::Knowledge,
    value: Value,
    patches: Seq<Patch>,
    from: int,
) -> (Result<Value, ExprBuilderError>, B::Knowledge)
    decreases patches.len() - from,
{
    if from < 0 || from >= patches.len() {
        (Ok(value), known)
    } else {
        let step = patch_outcome::<B>(known, value, patches[from]);
        match step.0 {
            Ok(next) => patched_from::<B>(step.1, next, patches, from + 1),
            Err(_) => step,
        }
    }
}

/// What a builder that knows `known` makes of the value `value` by the changes of
/// `patches`, in their order, and what it knows afterwards.
pub open spec fn patched_outcome<B: BasicExprBuilder + ?Sized>(
    known: B::Knowledge,
    value: Value,
    patches: Seq<Patch>,
) -> (Result<Value, ExprBuilderError>, B::Knowledge) {
    patched_from::<B>(known, value, patches, 0)
}

/// The statements that a piece of an instruction becomes with a builder that knows `known`,
/// or the error of the builder, and what the builder knows afterwards.
///
/// A statement that is known is itself. A byte goes through its changes, see
/// [`patched_outcome`], and is finished, see [`finished_byte`]. For a byte that holds a
/// scale the byte goes through its changes, then the builder is asked to multiply the
/// expression of the scale by the scale, and what it answers and the byte are combined as
/// [`dynscale_outcome`] says: the statement that computes the scale bits and the byte, which
/// has to be of the size of a byte.
pub open spec fn emit_outcome<B: BasicExprBuilder + ?Sized>(known: B::Knowledge, emit: EmitView) -> (
    Result<Seq<StmtView>, ExprBuilderError>,
    B::Knowledge,
) {
    match emit {
        EmitView::Stmt(stmt) => (Ok(seq![stmt]), known),
        EmitView::Byte { base, patches, coerce } => {
            let combined = patched_outcome::<B>(known, Value::byte_spec(base), patches);
            (
                match combined.0 {
                    Ok(value) => match finished_byte(value, coerce) {
                        Ok(stmt) => Ok(seq![stmt]),
                        Err(e) => Err(e),
                    },
                    Err(e) => Err(e),
                },
                combined.1,
            )
        },
        EmitView::ScaledSib { base, patches, scale, scale_expr } => {
            let combined = patched_outcome::<B>(known, Value::byte_spec(base), patches);
            match combined.0 {
                Err(e) => (Err(e), combined.1),
                Ok(byte) => {
                    let scaled = asked_else_err::<B>(
                        combined.1,
                        Combine::Mul(scale_expr, Value::byte_spec(scale)),
                    );
                    match scaled.0 {
                        Err(e) => (Err(e), scaled.1),
                        Ok(product) => {
                            let done = dynscale_outcome::<B>(scaled.1, product, byte);
                            (
                                match done.0 {
                                    Err(e) => Err(e),
                                    Ok(pair) => if pair.1.repr.size != Size::BYTE {
                                        Err(ExprBuilderError::BadExprCombinator { expr: pair.1 })
                                    } else {
                                        Ok(
                                            seq![
                                                StmtView::Stmt(pair.0),
                                                StmtView::Const(Value::Expr(pair.1)),
                                            ],
                                        )
                                    },
                                },
                                done.1,
                            )
                        },
                    }
                },
            }
        },
    }
}

/// What becomes of the pieces of an instruction: the statements that are appended, whether
/// all pieces became statements, and what the builder knows afterwards.
pub struct PlanOutcome<K> {
    pub appended: Seq<StmtView>,
    pub result: Result<(), ExprBuilderError>,
    pub knowledge: K,
}

/// What becomes of the pieces from `from` on with a builder that knows `known`, after the
/// pieces before became the statements `appended`: each piece becomes its statements, see
/// [`emit_outcome`], up to the first for which the builder refuses. The statements of the
/// pieces before that one stay.
pub open spec fn plan_from<B: BasicExprBuilder + ?Sized>(
    known: B::Knowledge,
    plan: Seq<EmitView>,
    from: int,
    appended: Seq<StmtView>,
) -> PlanOutcome<B::Knowledge>
    decreases plan.len() - from,
{
    if from < 0 || from >= plan.len() {
        PlanOutcome { appended, result: Ok(()), knowledge: known }
    } else {
        let step = emit_outcome::<B>(known, plan[from]);
        match step.0 {
            Ok(stmts) => plan_from::<B>(step.1, plan, from + 1, appended + stmts),
            Err(e) => PlanOutcome { appended, result: Err(e), knowledge: step.1 },
        }
    }
}

/// What becomes of the pieces of an instruction with a builder that knows `known`.
pub open spec fn plan_outcome<B: BasicExprBuilder + ?Sized>(known: B::Knowledge, plan: Seq<EmitView>) -> PlanOutcome<
    B::Knowledge,
> {
    plan_from::<B>(known, plan, 0, seq![])
}

/// A piece that stands for a statement becomes that statement, whatever the builder, and
/// the builder is not asked.
pub proof fn lemma_literal_emit<B: BasicExprBuilder + ?Sized>(known: B::Knowledge, emit: EmitView)
    requires
        emit.literal() is Some,
    ensures
        emit_outcome::<B>(known, emit) == (
            Ok::<Seq<StmtView>, ExprBuilderError>(seq![emit.literal().unwrap()]),
            known,
        ),
{
    match emit {
        EmitView::Byte { base, patches, coerce } => {
            lemma_finished_literal(base, coerce);
        },
        _ => {},
    }
}

/// Pieces that stand for statements become these statements, whatever the builder, and the
/// builder is not asked.
pub proof fn lemma_literal_plan_from<B: BasicExprBuilder + ?Sized>(
    known: B::Knowledge,
    plan: Seq<EmitView>,
    from: int,
    appended: Seq<StmtView>,
)
    requires
        0 <= from <= plan.len(),
        all_literal(plan),
    ensures
        plan_from::<B>(known, plan, from, appended) == (PlanOutcome {
            appended: appended + literals(plan).skip(from),
            result: Ok(()),
            knowledge: known,
        }),
    decreases plan.len() - from,
{
    if from >= plan.len() {
        assert(appended + literals(plan).skip(from) =~= appended);
    } else {
        lemma_literal_emit::<B>(known, plan[from]);
        let stmt = plan[from].literal().unwrap();
        lemma_literal_plan_from::<B>(known, plan, from + 1, appended + seq![stmt]);
        assert(appended + seq![stmt] + literals(plan).skip(from + 1) =~= appended + literals(plan).skip(
            from,
        ));
    }
}

/// Where no expression takes part in the pieces of an instruction, the pieces become the
/// statements that they stand for, whatever the builder, and the builder is not asked.
pub proof fn lemma_literal_plan<B: BasicExprBuilder + ?Sized>(known: B::Knowledge, plan: Seq<EmitView>)
    requires
        all_literal(plan),
    ensures
        plan_outcome::<B>(known, plan) == (PlanOutcome {
            appended: literals(plan),
            result: Ok(()),
            knowledge: known,
        }),
{
    lemma_literal_plan_from::<B>(known, plan, 0, seq![]);
    assert(Seq::<StmtView>::empty() + literals(plan).skip(0) =~= literals(plan));
}

/// Applies the changes of a piece to a byte: the builder is asked for each change in turn,
/// see [`patched_outcome`]. Without changes the result is the byte itself.
pub fn combine_byte<B: BasicExprBuilder>(state: &mut B, base: u8, patches: &Vec<Patch>) -> (r: Result<
    Value,
    ExprBuilderError,
>)
    ensures
        final(state).emitted() == old(state).emitted(),
        final(state).reported() == old(state).reported(),
        (r, final(state).knowledge()) == patched_outcome::<B>(
            old(state).knowledge(),
            Value::byte_spec(base),
            patches@,
        ),
{
    let mut value = Value::Byte(base);
    let mut i: usize = 0;
    while i < patches.len()
        invariant
            i <= patches.len(),
            state.emitted() == old(state).emitted(),
            state.reported() == old(state).reported(),
            patched_outcome::<B>(old(state).knowledge(), Value::byte_spec(base), patches@) == patched_from::<
                B,
            >(state.knowledge(), value, patches@, i as int),
        decreases patches.len() - i,
    {
        let combined = match patches[i] {
            Patch::Or { expr, mask, shift } => state.mask_shift_or_else_err(value, expr, mask, shift),
            Patch::AndNot { expr, mask, shift } => state.mask_shift_inverted_and_else_err(
                value,
                expr,
                mask,
                shift,
            ),
            Patch::OrByte { value: bits } => match value {
                Value::Expr(expr) => state.bit_or_else_err(expr, Value::Byte(bits)),
                Value::Number(nr) => {
                    value = Value::Byte(nr.as_u8() | bits);
                    i += 1;
                    continue ;
                },
            },
        };
        match combined {
            Ok(expr) => {
                value = Value::Expr(expr);
            },
            Err(e) => {
                return Err(e);
            },
        }
        i += 1;
    }
    Ok(value)
}

/// Turns one piece of an instruction into statements, see [`emit_outcome`]: the statements
/// are appended, or nothing is appended and the error of the builder is returned.
pub fn run_emit<B: BasicExprBuilder>(state: &mut B, emit: Emit) -> (r: Result<(), ExprBuilderError>)
    ensures
        final(state).reported() == old(state).reported(),
        final(state).knowledge() == emit_outcome::<B>(old(state).knowledge(), emit@).1,
        match emit_outcome::<B>(old(state).knowledge(), emit@).0 {
            Ok(stmts) => r is Ok && final(state).emitted() == old(state).emitted() + stmts,
            Err(e) => r == Err::<(), ExprBuilderError>(e) && final(state).emitted() == old(state).emitted(),
        },
{
    let ghost before = state.emitted();
    match emit {
        Emit::Stmt(stmt) => {
            state.push(stmt);
            assert(state.emitted() =~= before + seq![stmt@]);
            Ok(())
        },
        Emit::Byte { base, patches, coerce } => {
            let value = match combine_byte(state, base, &patches) {
                Ok(value) => value,
                Err(e) => {
                    return Err(e);
                },
            };
            match finish_byte(value, coerce) {
                Ok(stmt) => {
                    state.push(stmt);
                    assert(state.emitted() =~= before + seq![stmt@]);
                    Ok(())
                },
                Err(e) => Err(e),
            }
        },
        Emit::ScaledSib { base, patches, scale, scale_expr } => {
            let byte = match combine_byte(state, base, &patches) {
                Ok(value) => value,
                Err(e) => {
                    return Err(e);
                },
            };
            let scaled = match state.mul_else_err(scale_expr, Value::Byte(scale)) {
                Ok(scaled) => scaled,
                Err(e) => {
                    return Err(e);
                },
            };
            let (bits, sib) = match state.dynscale(scaled, byte) {
                Ok(pair) => pair,
                Err(e) => {
                    return Err(e);
                },
            };
            if sib.repr.size != Size::BYTE {
                return Err(ExprBuilderError::BadExprCombinator { expr: sib });
            }
            state.push(Stmt::Stmt(bits));
            state.push(Stmt::Const(Value::Expr(sib)));
            assert(state.emitted() =~= before + seq![StmtView::Stmt(bits), StmtView::Const(Value::Expr(sib))]);
            Ok(())
        },
    }
}

/// Turns the pieces of an instruction into statements, in their order, up to the first for
/// which the expression builder refuses, see [`plan_outcome`]. Where no expression takes
/// part in the pieces, the statements that they stand for are appended.
pub fn run_plan<B: BasicExprBuilder>(state: &mut B, plan: Vec<Emit>) -> (r: Result<(), ExprBuilderError>)
    ensures
        final(state).reported() == old(state).reported(),
        ({
            let outcome = plan_outcome::<B>(old(state).knowledge(), emit_views(plan@));
            &&& final(state).emitted() == old(state).emitted() + outcome.appended
            &&& r == outcome.result
            &&& final(state).knowledge() == outcome.knowledge
        }),
        all_literal(emit_views(plan@)) ==> r is Ok && final(state).emitted() == old(state).emitted()
            + literals(emit_views(plan@)) && final(state).knowledge() == old(state).knowledge(),
{
    let ghost views = emit_views(plan@);
    let ghost before = state.emitted();
    let ghost mut appended: Seq<StmtView> = seq![];
    proof {
        if all_literal(views) {
            lemma_literal_plan::<B>(state.knowledge(), views);
        }
    }
    let mut left = plan;
    let ghost mut i: int = 0;
    assert(before + appended =~= before);
    while left.len() > 0
        invariant
            views == emit_views(plan@),
            before == old(state).emitted(),
            0 <= i,
            views.len() == i + left.len(),
            emit_views(left@) == views.skip(i),
            state.reported() == old(state).reported(),
            state.emitted() == before + appended,
            plan_outcome::<B>(old(state).knowledge(), views) == plan_from::<B>(
                state.knowledge(),
                views,
                i,
                appended,
            ),
        decreases left.len(),
    {
        let ghost rest_views = emit_views(left@);
        let ghost rest = left@;
        assert(rest_views[0] == left@[0]@);
        let emit = left.remove(0);
        assert forall|j: int| 0 <= j < left@.len() implies emit_views(left@)[j] == views.skip(i + 1)[j] by {
            assert(rest_views[j + 1] == rest[j + 1]@);
        }
        assert(emit_views(left@) =~= views.skip(i + 1));
        assert(views[i] == emit@);
        let ghost step = emit_outcome::<B>(state.knowledge(), emit@);
        match run_emit(state, emit) {
            Ok(()) => {
                proof {
                    let stmts = step.0.unwrap();
                    assert(state.emitted() =~= before + (appended + stmts));
                    appended = appended + stmts;
                    i = i + 1;
                }
            },
            Err(e) => {
                return Err(e);
            },
        }
    }
    Ok(())
}

/// The values that expressions have for an evaluator that knows `known`: an expression is
/// the place of its value.
pub open spec fn values_of(known: Seq<u64>) -> spec_fn(Expr) -> u64 {
    |e: Expr|
        if e.idx < known.len() {
            known[e.idx as int]
        } else {
            0
        }
}

/// Whether an evaluator that knows `known` knows the expressions of all changes.
pub open spec fn knows_patches(known: Seq<u64>, patches: Seq<Patch>) -> bool {
    forall|j: int|
        0 <= j < patches.len() ==> ((#[trigger] patches[j]).expr() matches Some(e) ==> e.idx
            < known.len())
}

/// Whether `later` holds the values of `known` at their places.
pub open spec fn keeps(later: Seq<u64>, known: Seq<u64>) -> bool {
    known.len() <= later.len() && forall|i: int| 0 <= i < known.len() ==> later[i] == known[i]
}

proof fn lemma_evaluator_patched_from(
    known0: Seq<u64>,
    known: Seq<u64>,
    value: Value,
    base: u8,
    patches: Seq<Patch>,
    from: int,
)
    requires
        0 <= from <= patches.len(),
        keeps(known, known0),
        known.len() + 3 * (patches.len() - from) <= usize::MAX,
        knows_patches(known0, patches),
        match value {
            Value::Expr(e) => e.idx < known.len(),
            Value::Number(nr) => nr.bits() < 256,
        },
        value.spec_repr().size == Size::BYTE,
        bits_in(known, value) == Some(patched(base, patches.take(from), values_of(known0))),
    ensures
        ({
            let outcome = patched_from::<Evaluator>(known, value, patches, from);
            &&& outcome.0 is Ok
            &&& outcome.0.unwrap().spec_repr().size == Size::BYTE
            &&& bits_in(outcome.1, outcome.0.unwrap()) == Some(patched(base, patches, values_of(known0)))
            &&& keeps(outcome.1, known0)
        }),
    decreases patches.len() - from,
{
    broadcast use Number::lemma_spec_new;

    if from >= patches.len() {
        assert(patches.take(from) =~= patches);
    } else {
        let patch = patches[from];
        let before = patches.take(from);
        let after = patches.take(from + 1);
        assert(after.drop_last() =~= before);
        assert(after.last() == patch);
        let b = bits_in(known, value).unwrap();
        let n = known.len();
        assert((n as usize) as int == n);
        match patch {
            Patch::Or { expr, mask, shift } => {
                let x = known[expr.idx as int];
                assert(x == values_of(known0)(expr));
                let ms = mask_shift_spec(x, mask, shift);
                let k1 = known.push(ms);
                let k2 = k1.push(ms | b);
                assert(bits_in(k1, value) == Some(b));
                assert(((n + 1) as usize) as int == n + 1);
                let next = Value::Expr(Expr { idx: (n + 1) as usize, repr: value.spec_repr() });
                assert(patch_outcome::<Evaluator>(known, value, patch) == (
                    Ok::<Value, ExprBuilderError>(next),
                    k2,
                ));
                assert(bits_in(k2, next) == Some(ms | b));
                lemma_evaluator_patched_from(known0, k2, next, base, patches, from + 1);
            },
            Patch::AndNot { expr, mask, shift } => {
                let x = known[expr.idx as int];
                assert(x == values_of(known0)(expr));
                let ms = mask_shift_spec(x, mask, shift);
                let k1 = known.push(ms);
                let k2 = k1.push(!ms);
                let k3 = k2.push(!ms & b);
                assert(bits_in(k1, value) == Some(b));
                assert(bits_in(k2, value) == Some(b));
                assert(((n + 1) as usize) as int == n + 1);
                assert(((n + 2) as usize) as int == n + 2);
                let next = Value::Expr(Expr { idx: (n + 2) as usize, repr: value.spec_repr() });
                assert(patch_outcome::<Evaluator>(known, value, patch) == (
                    Ok::<Value, ExprBuilderError>(next),
                    k3,
                ));
                assert(bits_in(k3, next) == Some(!ms & b));
                lemma_evaluator_patched_from(known0, k3, next, base, patches, from + 1);
            },
            Patch::OrByte { value: bits } => {
                match value {
                    Value::Expr(e) => {
                        let k1 = known.push(b | bits as u64);
                        let next = Value::Expr(
                            Expr { idx: n as usize, repr: Value::byte_spec(bits).spec_repr() },
                        );
                        assert(patch_outcome::<Evaluator>(known, value, patch) == (
                            Ok::<Value, ExprBuilderError>(next),
                            k1,
                        ));
                        assert(bits_in(k1, next) == Some(b | bits as u64));
                        lemma_evaluator_patched_from(known0, k1, next, base, patches, from + 1);
                    },
                    Value::Number(nr) => {
                        let folded: u8 = ((nr.bits() & 0xFF) as u8) | bits;
                        let next = Value::byte_spec(folded);
                        assert(folded as u64 == b | bits as u64) by (bit_vector)
                            requires
                                b < 256,
                                folded == ((b & 0xFF) as u8) | bits,
                        ;
                        assert(bits_in(known, next) == Some(b | bits as u64));
                        lemma_evaluator_patched_from(known0, known, next, base, patches, from + 1);
                    },
                }
            },
        }
    }
}

/// An evaluator that knows the expressions of the changes of a piece makes of the byte of
/// the piece what the changes make of it with the values that the evaluator knows, see
/// [`patched`]: it does not refuse, and what it answers has that value.
pub proof fn lemma_evaluator_patched(known: Seq<u64>, base: u8, patches: Seq<Patch>)
    requires
        knows_patches(known, patches),
        known.len() + 3 * patches.len() <= usize::MAX,
    ensures
        ({
            let outcome = patched_outcome::<Evaluator>(known, Value::byte_spec(base), patches);
            &&& outcome.0 is Ok
            &&& outcome.0.unwrap().spec_repr().size == Size::BYTE
            &&& bits_in(outcome.1, outcome.0.unwrap()) == Some(patched(base, patches, values_of(known)))
            &&& keeps(outcome.1, known)
        }),
{
    broadcast use Number::lemma_spec_new;

    assert(patches.take(0) =~= Seq::<Patch>::empty());
    lemma_evaluator_patched_from(known, known, Value::byte_spec(base), base, patches, 0);
}

/// An evaluator that knows the expressions of the changes of a byte turns the piece into
/// one statement, a constant of the size of a byte whose value is what the changes make of
/// the byte with the values that the evaluator knows, see [`patched`].
pub proof fn lemma_evaluator_byte(known: Seq<u64>, base: u8, patches: Seq<Patch>, coerce: bool)
    requires
        knows_patches(known, patches),
        known.len() + 3 * patches.len() <= usize::MAX,
    ensures
        ({
            let outcome = emit_outcome::<Evaluator>(known, EmitView::Byte { base, patches, coerce });
            &&& outcome.0 is Ok
            &&& outcome.0.unwrap().len() == 1
            &&& outcome.0.unwrap()[0] is Const
            &&& outcome.0.unwrap()[0]->Const_0.spec_repr().size == Size::BYTE
            &&& bits_in(outcome.1, outcome.0.unwrap()[0]->Const_0) == Some(
                patched(base, patches, values_of(known)),
            )
            &&& keeps(outcome.1, known)
        }),
{
    broadcast use Number::lemma_spec_new;

    lemma_evaluator_patched(known, base, patches);
    let combined = patched_outcome::<Evaluator>(known, Value::byte_spec(base), patches);
    let value = combined.0.unwrap();
    match value {
        Value::Number(nr) => {
            if coerce && NumericRepr::unsigned_spec(Size::BYTE).holds(nr.as_int()) {
                assert(nr.with_repr(NumericRepr::unsigned_spec(Size::BYTE)).bits() == nr.bits());
            }
        },
        Value::Expr(_) => {},
    }
}

} // verus!
