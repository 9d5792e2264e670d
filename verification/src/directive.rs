//! The directives that stand between instructions.
use crate::arch::{arch_of_name, from_str, string_views, AnyArch, Arch};
use crate::common::{stmt_views, Const, ConstView, Expr, NumericRepr, Size, Stmt, StmtView, Value};
use crate::DynasmData;
use vstd::prelude::*;

verus! {

#[derive(Debug, Clone, PartialEq, Eq)]
pub enum Directive {
    /// Set the architecture.
    Arch(String),
    /// Activate the features of an architecture, or `none` to remove all.
    Feature(Vec<String>),
    /// Directly add some inline data words.
    Data(Size, Vec<Const>),
    /// Add some byte directly to the assembled data.
    Byte(Expr),
    /// Perform an alignment.
    Align { value: Expr, with: Option<Expr> },
    Alias {
        /// The alias to use.
        alias: String,
        /// The target register which is given an alias.
        reg: String,
    },
    /// A direct expression to add as bytes to the output.
    Expr(Expr),
}

#[derive(Debug, Clone, PartialEq, Eq)]
pub enum MalformedDirectiveError {
    /// The architecture that was set was not recognized.
    UnknownArchitecture(String),
    /// The feature at the index was unknown.
    UnknownFeature {
        /// The index, to match to an input span for example.
        idx: usize,
        /// The bad feature.
        what: String,
    },
    DuplicateAlias {
        /// The name that has already been aliased.
        reused: String,
    },
    /// Not a recognized directive.
    UnknownDirective,
}

/// What a list of constants holds.
pub open spec fn const_views(consts: Seq<Const>) -> Seq<ConstView> {
    consts.map_values(|c: Const| c@)
}

/// The statements for a list of constants of a size: a relocation takes what the
/// architecture says, a value is a signed expression of the size.
pub open spec fn data_stmts(arch: AnyArch, consts: Seq<ConstView>, size: Size) -> Seq<StmtView>
    decreases consts.len(),
{
    if consts.len() == 0 {
        seq![]
    } else {
        data_stmts(arch, consts.drop_last(), size) + match consts.last() {
            ConstView::Relocate(jump) => arch.static_reloc(jump, size),
            ConstView::Value(expr) => seq![
                StmtView::Const(
                    Value::Expr(Expr { idx: expr.idx, repr: NumericRepr::signed_spec(size) }),
                ),
            ],
        }
    }
}

/// The names of the features that a feature directive sets: none for the single name
/// `none`.
pub open spec fn feature_names(features: Seq<Seq<char>>) -> Seq<Seq<char>> {
    if features.len() == 1 && features[0] == "none"@ {
        seq![]
    } else {
        features
    }
}

/// Appends the statements for a list of constants of a size, see [`data_stmts`].
pub fn directive_const(file_data: &DynasmData, stmts: &mut Vec<Stmt>, values: &[Const], size: Size)
    ensures
        stmt_views(final(stmts)@) == stmt_views(old(stmts)@) + data_stmts(
            file_data.current_arch,
            const_views(values@),
            size,
        ),
{
    let ghost views = const_views(values@);
    let ghost start = stmt_views(stmts@);
    let ghost arch = file_data.current_arch;
    let mut i: usize = 0;
    assert(views.take(0) =~= Seq::empty());
    assert(start + data_stmts(arch, views.take(0), size) =~= start);
    while i < values.len()
        invariant
            i <= values.len(),
            views == const_views(values@),
            arch == file_data.current_arch,
            stmt_views(stmts@) == start + data_stmts(arch, views.take(i as int), size),
        decreases values.len() - i,
    {
        assert(views[i as int] == values@[i as int]@);
        assert(views.take(i + 1).drop_last() =~= views.take(i as int));
        assert(views.take(i + 1).last() == views[i as int]);
        let ghost before = stmt_views(stmts@);
        let ghost done = data_stmts(arch, views.take(i as int), size);
        match &values[i] {
            Const::Relocate(jump) => {
                file_data.current_arch.handle_static_reloc(stmts, jump.copy(), size);
                assert(stmt_views(stmts@) =~= start + (done + arch.static_reloc(jump@, size)));
            },
            Const::Value(expr) => {
                let stmt = Stmt::Const(Value::Expr(Expr { idx: expr.idx, repr: NumericRepr::signed(size) }));
                stmts.push(stmt);
                assert(stmt_views(stmts@) =~= before.push(stmt@));
                assert(stmt_views(stmts@) =~= start + (done + seq![stmt@]));
            },
        }
        i += 1;
    }
    assert(views.take(i as int) =~= views);
}

/// Evaluates a directive.
///
/// - The architecture directive sets the architecture with the name, with all its
///   features; a name that is none is an error.
/// - The feature directive replaces the features of the architecture by those of the
///   names; the names that set no feature are left out.
/// - The data directive appends the statements of its constants, see [`data_stmts`].
/// - The byte directive appends its expression as bytes.
/// - The align directive appends an alignment, which pads with the given expression or
///   else with the byte of the architecture.
/// - The alias directive adds an alias, which may not be there yet.
/// - Another directive is an error.
pub fn evaluate_directive(
    file_data: &mut DynasmData,
    stmts: &mut Vec<Stmt>,
    directive: &Directive,
) -> (r:
    Result<(), MalformedDirectiveError>)
    requires
        old(file_data).wf(),
    ensures
        final(file_data).wf(),
        match *directive {
            Directive::Arch(name) => match arch_of_name(name@) {
                Some(arch) => r is Ok && final(file_data).current_arch == arch && final(file_data).aliases
                    == old(file_data).aliases && final(stmts)@ == old(stmts)@,
                None => (r matches Err(MalformedDirectiveError::UnknownArchitecture(n)) && n@ == name@)
                    && *final(file_data) == *old(file_data) && final(stmts)@ == old(stmts)@,
            },
            Directive::Feature(features) => r is Ok && final(file_data).current_arch == old(
                file_data,
            ).current_arch.with_features(feature_names(string_views(features@)))
                && final(file_data).aliases == old(file_data).aliases && final(stmts)@ == old(stmts)@,
            Directive::Data(size, consts) => r is Ok && *final(file_data) == *old(file_data)
                && stmt_views(final(stmts)@) == stmt_views(old(stmts)@) + data_stmts(
                old(file_data).current_arch,
                const_views(consts@),
                size,
            ),
            Directive::Byte(expr) => r is Ok && *final(file_data) == *old(file_data) && stmt_views(
                final(stmts)@,
            ) == stmt_views(old(stmts)@).push(StmtView::ExprExtend(Value::Expr(expr))),
            Directive::Align { value, with } => r is Ok && *final(file_data) == *old(file_data)
                && stmt_views(final(stmts)@) == stmt_views(old(stmts)@).push(
                StmtView::Align(
                    value,
                    match with {
                        Some(with) => Value::Expr(with),
                        None => Value::byte_spec(old(file_data).current_arch.spec_default_align()),
                    },
                ),
            ),
            Directive::Alias { alias, reg } => final(file_data).current_arch == old(
                file_data,
            ).current_arch && final(stmts)@ == old(stmts)@ && if old(file_data).has_alias(alias@) {
                (r matches Err(MalformedDirectiveError::DuplicateAlias { reused }) && reused@ == alias@)
                    && final(file_data).aliases == old(file_data).aliases
            } else {
                r is Ok && final(file_data).alias_views() == old(file_data).alias_views().push(
                    (alias@, reg@),
                )
            },
            Directive::Expr(_) => r is Err && (r matches Err(MalformedDirectiveError::UnknownDirective))
                && *final(file_data) == *old(file_data) && final(stmts)@ == old(stmts)@,
        },
{
    match directive {
        Directive::Arch(arch) => {
            // ; .arch ident
            match from_str(arch.as_str()) {
                Some(a) => {
                    file_data.current_arch = a;
                },
                None => {
                    return Err(MalformedDirectiveError::UnknownArchitecture(arch.clone()));
                },
            }
        },
        Directive::Feature(features) => {
            // ;.feature none  cancels all features
            if features.len() == 1 && crate::arch::x64::x64data::str_eq(features[0].as_str(), "none") {
                let none: Vec<String> = Vec::new();
                assert(string_views(features@)[0] == features@[0]@);
                assert(string_views(none@) =~= feature_names(string_views(features@)));
                let _ = file_data.current_arch.set_features(none.as_slice());
            } else {
                proof {
                    if features@.len() == 1 {
                        assert(string_views(features@)[0] == features@[0]@);
                    }
                }
                let _ = file_data.current_arch.set_features(features.as_slice());
            }
        },
        // ; .byte (expr ("," expr)*)?
        Directive::Data(size, consts) => {
            directive_const(file_data, stmts, consts.as_slice(), *size);
        },
        Directive::Byte(expr) => {
            // ; .bytes expr
            let stmt = Stmt::ExprExtend(Value::Expr(*expr));
            stmts.push(stmt);
            assert(stmt_views(stmts@) =~= stmt_views(old(stmts)@).push(stmt@));
        },
        Directive::Align { value, with } => {
            // ; .align expr ("," expr)
            let with = match with {
                Some(with) => Value::Expr(*with),
                None => Value::Byte(file_data.current_arch.default_align()),
            };
            let stmt = Stmt::Align(*value, with);
            stmts.push(stmt);
            assert(stmt_views(stmts@) =~= stmt_views(old(stmts)@).push(stmt@));
        },
        Directive::Alias { alias, reg } => {
            // ; .alias ident, ident
            if file_data.find_alias(alias.as_str()).is_some() {
                return Err(MalformedDirectiveError::DuplicateAlias { reused: alias.clone() });
            }
            file_data.add_alias(alias.clone(), reg.clone());
        },
        Directive::Expr(_) => {
            // unknown directive. skip ahead until we hit a ; so the parser can recover
            return Err(MalformedDirectiveError::UnknownDirective);
        },
    }
    Ok(())
}

} // verus!
