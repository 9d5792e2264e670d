//! The instruction-encoding core of an x86/x64 assembler.
//!
//! Given a mnemonic, its operands and the processor mode, the encoder produces the exact byte
//! level encoding of an instruction as a stream of statements, together with the relocations
//! that have to be resolved later. Values that are only known to the caller are never evaluated
//! here: the encoder describes how they have to be combined and asks the caller's expression
//! builder to do so.
use arch::{
    arch_of_name, diagnostic_views, from_str, AnyArch, BasicExprBuilder, Combine, Diagnostic, ErrorSpan,
    Report,
};
use common::{stmt_views, StmtView};
use vstd::prelude::*;

/// Module with common infrastructure across assemblers
pub mod common;
/// Module with architecture-specific assembler implementations
pub mod arch;

/// Module containing the implementation of directives
pub mod directive;
/// Module that folds constants into byte strings
pub mod serialize;

pub use common::{Const, Expr, Ident, Jump, JumpKind, JumpOffset, Number, NumericRepr, Size, Stmt, Value};
pub use directive::{Directive, MalformedDirectiveError};

verus! {

/// An assembler that simply collects all statements in order.
#[derive(Debug, Clone, PartialEq, Eq)]
pub struct BasicAssembler {
    /// All collected statements in their order.
    pub stmts: Vec<common::Stmt>,
}

/// A simple implementation of a `BasicExprBuilder`.
///
/// It can not combine any expressions, pushes statements into a `Vec` and keeps the errors
/// that are reported in another.
#[derive(Debug, Clone, PartialEq, Eq)]
pub struct State {
    /// All collected statements in their order.
    pub stmts: Vec<common::Stmt>,
    /// All reported errors in their order.
    pub diagnostics: Vec<Diagnostic>,
}

impl State {
    pub fn new() -> (r: State)
        ensures
            r.stmts@.len() == 0,
            r.diagnostics@.len() == 0,
    {
        State { stmts: Vec::new(), diagnostics: Vec::new() }
    }
}

impl BasicExprBuilder for State {
    /// The simple builder knows nothing of the expressions.
    type Knowledge = ();

    open spec fn emitted(&self) -> Seq<StmtView> {
        stmt_views(self.stmts@)
    }

    open spec fn knowledge(&self) -> () {
        ()
    }

    /// The simple builder refuses whatever it is asked.
    open spec fn answer(known: (), request: Combine) -> Option<Expr> {
        None
    }

    open spec fn after(known: (), request: Combine) -> () {
        ()
    }

    open spec fn reported(&self) -> Seq<Report> {
        diagnostic_views(self.diagnostics@)
    }

    fn push(&mut self, stmt: common::Stmt) {
        self.stmts.push(stmt);
        assert(stmt_views(self.stmts@) =~= stmt_views(old(self).stmts@).push(stmt@));
    }

    fn emit_error_at(&mut self, span: ErrorSpan, message: &str) {
        let diagnostic = Diagnostic { span, message: String::from_str(message) };
        self.diagnostics.push(diagnostic);
        assert(diagnostic_views(self.diagnostics@) =~= diagnostic_views(old(self).diagnostics@).push(
            diagnostic@,
        ));
    }

    fn bit_or(&mut self, a: Expr, b: Value) -> (r: Option<Expr>)
        ensures
            r is None,
            *final(self) == *old(self),
    {
        None
    }

    fn bit_and(&mut self, a: Expr, b: Value) -> (r: Option<Expr>)
        ensures
            r is None,
            *final(self) == *old(self),
    {
        None
    }

    fn bit_xor(&mut self, a: Expr, b: Value) -> (r: Option<Expr>)
        ensures
            r is None,
            *final(self) == *old(self),
    {
        None
    }

    fn add(&mut self, a: Expr, b: Value) -> (r: Option<Expr>)
        ensures
            r is None,
            *final(self) == *old(self),
    {
        None
    }

    fn mul(&mut self, a: Expr, b: Value) -> (r: Option<Expr>)
        ensures
            r is None,
            *final(self) == *old(self),
    {
        None
    }

    fn neg(&mut self, a: Expr) -> (r: Option<Expr>)
        ensures
            r is None,
            *final(self) == *old(self),
    {
        None
    }

    fn log2(&mut self, a: Expr) -> (r: Option<Expr>)
        ensures
            r is None,
            *final(self) == *old(self),
    {
        None
    }

    fn mask_shift(&mut self, val: Expr, mask: u64, shift: i8) -> (r: Option<Expr>)
        ensures
            r is None,
            *final(self) == *old(self),
    {
        None
    }
}

/// What is known while a file is assembled: the architecture, and the aliases of registers.
#[derive(Debug, Clone, PartialEq, Eq)]
pub struct DynasmData {
    pub current_arch: AnyArch,
    /// The aliases, each with the register that it stands for. No alias is there twice.
    pub aliases: Vec<(String, String)>,
}

/// What a list of aliases holds.
pub open spec fn pair_views(aliases: Seq<(String, String)>) -> Seq<(Seq<char>, Seq<char>)> {
    aliases.map_values(|a: (String, String)| (a.0@, a.1@))
}

impl DynasmData {
    /// The aliases, each with the register that it stands for.
    pub open spec fn alias_views(&self) -> Seq<(Seq<char>, Seq<char>)> {
        pair_views(self.aliases@)
    }

    /// Whether `alias` is one of the aliases.
    pub open spec fn has_alias(&self, alias: Seq<char>) -> bool {
        exists|i: int| 0 <= i < self.alias_views().len() && (#[trigger] self.alias_views()[i]).0 == alias
    }

    /// No alias is there twice.
    pub open spec fn wf(&self) -> bool {
        forall|i: int, j: int|
            0 <= i < j < self.alias_views().len() ==> (#[trigger] self.alias_views()[i]).0 != (
            #[trigger] self.alias_views()[j]).0
    }

    /// Create data with the architecture of a name, which has to be one, and without
    /// aliases.
    pub fn new(arch: &str) -> (r: DynasmData)
        requires
            arch_of_name(arch@) is Some,
        ensures
            r.wf(),
            Some(r.current_arch) == arch_of_name(arch@),
            r.aliases@.len() == 0,
    {
        match from_str(arch) {
            Some(current_arch) => DynasmData { current_arch, aliases: Vec::new() },
            None => DynasmData {
                current_arch: AnyArch::Unknown(arch::DummyArch::new("unknown")),
                aliases: Vec::new(),
            },
        }
    }

    /// The place of an alias among the aliases, if it is one of them.
    pub fn find_alias(&self, alias: &str) -> (r: Option<usize>)
        ensures
            r is Some == self.has_alias(alias@),
            r matches Some(i) ==> i < self.aliases@.len() && self.alias_views()[i as int].0 == alias@,
    {
        let mut i: usize = 0;
        while i < self.aliases.len()
            invariant
                i <= self.aliases.len(),
                forall|j: int| 0 <= j < i ==> (#[trigger] self.alias_views()[j]).0 != alias@,
            decreases self.aliases.len() - i,
        {
            assert(self.alias_views()[i as int] == (self.aliases@[i as int].0@, self.aliases@[i as int].1@));
            if arch::x64::x64data::str_eq(self.aliases[i].0.as_str(), alias) {
                return Some(i);
            }
            i += 1;
        }
        None
    }

    /// Adds an alias that is not there yet.
    pub fn add_alias(&mut self, alias: String, reg: String)
        requires
            old(self).wf(),
            !old(self).has_alias(alias@),
        ensures
            final(self).wf(),
            final(self).current_arch == old(self).current_arch,
            final(self).alias_views() == old(self).alias_views().push((alias@, reg@)),
    {
        let ghost before = self.alias_views();
        self.aliases.push((alias, reg));
        assert(self.alias_views() =~= before.push((alias@, reg@)));
        assert forall|i: int, j: int| 0 <= i < j < self.alias_views().len() implies (
        #[trigger] self.alias_views()[i]).0 != (#[trigger] self.alias_views()[j]).0 by {
            if j == before.len() {
                assert(before[i].0 != alias@);
            } else {
                assert(before[i].0 != before[j].0);
            }
        }
    }
}

} // verus!
