//! The encoder for the x86 family of instruction sets.
use crate::arch::{string_views, Arch, BasicExprBuilder, Error as ExprBuilderError};
use crate::common::{stmt_views, Jump, JumpView, Size, Stmt, StmtView, Value};
use crate::State;
use vstd::prelude::*;
use vstd::std_specs::convert::FromSpecImpl;

pub mod ast;
pub mod compiler;
pub mod debug;
pub mod emit;
pub mod encode;
pub mod opmap;
pub mod x64data;

verus! {

/// The processor modes that can be assembled for.
#[derive(Debug, Clone, Copy, PartialEq, Eq, Structural)]
pub enum X86Mode {
    /// 64-bit mode.
    Long,
    /// 32-bit mode.
    Protected,
}

/// An error while assembling, either an error in the environment or during processing.
#[derive(Clone, Debug, PartialEq, Eq)]
#[non_exhaustive]
pub enum Error {
    /// An error happened within the expression builder.
    Expr(ExprBuilderError),
    /// Use of features that were disabled or would need to be explicitly enabled. Holds the
    /// features that are missing.
    DisabledFeatures(x64data::Features),
    /// An operand would be supported in another mode but not this one.
    UnsupportedOperandInThisMode {
        /// The stringified operand.
        operand: String,
        /// The size of the operand.
        op_size: Size,
        /// The mode where the error happened.
        mode: X86Mode,
        /// The mode where it would be supported.
        mode_hint: Option<X86Mode>,
    },
    /// A more generic version of the previous.
    UnsupportedInThisMode { message: String, mode_hint: Option<X86Mode> },
    /// An error where diagnostics offer no introspection.
    Generic { message: String },
    /// Some consistency check did not succeed.
    /// When this occurs one or several diagnostic messages have been emitted.
    Fatal,
}

/// What an error holds.
pub enum ErrorView {
    Expr(ExprBuilderError),
    DisabledFeatures(x64data::Features),
    UnsupportedOperandInThisMode {
        operand: Seq<char>,
        op_size: Size,
        mode: X86Mode,
        mode_hint: Option<X86Mode>,
    },
    UnsupportedInThisMode { message: Seq<char>, mode_hint: Option<X86Mode> },
    Generic { message: Seq<char> },
    Fatal,
}

impl View for Error {
    type V = ErrorView;

    open spec fn view(&self) -> ErrorView {
        match *self {
            Error::Expr(e) => ErrorView::Expr(e),
            Error::DisabledFeatures(features) => ErrorView::DisabledFeatures(features),
            Error::UnsupportedOperandInThisMode { operand, op_size, mode, mode_hint } => {
                ErrorView::UnsupportedOperandInThisMode { operand: operand@, op_size, mode, mode_hint }
            },
            Error::UnsupportedInThisMode { message, mode_hint } => ErrorView::UnsupportedInThisMode {
                message: message@,
                mode_hint,
            },
            Error::Generic { message } => ErrorView::Generic { message: message@ },
            Error::Fatal => ErrorView::Fatal,
        }
    }
}

impl Error {
    /// The error that holds nothing but a message.
    pub fn generic(message: &str) -> (r: Error)
        ensures
            r@ == (ErrorView::Generic { message: message@ }),
    {
        Error::Generic { message: String::from_str(message) }
    }
}

impl From<ExprBuilderError> for Error {
    fn from(err: ExprBuilderError) -> (r: Error) {
        Error::Expr(err)
    }
}

impl FromSpecImpl<ExprBuilderError> for Error {
    open spec fn obeys_from_spec() -> bool {
        true
    }

    open spec fn from_spec(err: ExprBuilderError) -> Error {
        Error::Expr(err)
    }
}

/// The architecture of x64: the encoder in 64-bit mode, with the features that are
/// active.
#[derive(Clone, Debug, PartialEq, Eq)]
pub struct Archx64 {
    features: x64data::Features,
}

impl Archx64 {
    /// The features that are active.
    pub closed spec fn active(&self) -> x64data::Features {
        self.features
    }

    /// The architecture with the features `features`.
    pub closed spec fn spec_new(features: x64data::Features) -> Archx64 {
        Archx64 { features }
    }

    /// The architecture is what its features are.
    pub broadcast proof fn lemma_spec_new(features: x64data::Features)
        ensures
            (#[trigger] Archx64::spec_new(features)).active() == features,
    {
    }

    /// Two architectures with the same features are the same.
    pub proof fn lemma_determined(a: Archx64, b: Archx64)
        requires
            a.active() == b.active(),
        ensures
            a == b,
    {
    }

    /// The features that are active.
    pub fn features(&self) -> (r: x64data::Features)
        ensures
            r == self.active(),
    {
        self.features
    }
}

impl Default for Archx64 {
    /// The architecture with all features.
    fn default() -> (r: Archx64)
        ensures
            r.active() == x64data::Features::spec_all(),
    {
        Archx64 { features: x64data::Features::all() }
    }
}

impl Arch for Archx64 {
    open spec fn spec_name(&self) -> Seq<char> {
        "x64"@
    }

    open spec fn with_features(&self, features: Seq<Seq<char>>) -> Self {
        Archx64::spec_new(x64data::Features::of_names(features))
    }

    open spec fn unknown_features(&self, features: Seq<Seq<char>>) -> Seq<Seq<char>> {
        x64data::Features::unknown_names(features)
    }

    /// A slot of zeros, then the record of a relocation that is relative to the end of the
    /// slot: no bytes between the slot and the end of the data, and the size of the slot.
    open spec fn static_reloc(&self, reloc: JumpView, size: Size) -> Seq<StmtView> {
        seq![StmtView::Const(Value::zero_spec(size)), reloc.encode(seq![0u8, size.bytes() as u8])]
    }

    open spec fn spec_default_align(&self) -> u8 {
        0x90
    }

    fn name(&self) -> (r: &'static str) {
        "x64"
    }

    fn set_features(&mut self, features: &[String]) -> (unknown: Vec<String>) {
        let (new_features, unknown) = x64data::Features::from_names(features);
        self.features = new_features;
        proof {
            broadcast use Archx64::lemma_spec_new;
            Archx64::lemma_determined(*self, old(self).with_features(string_views(features@)));
        }
        unknown
    }

    fn handle_static_reloc(&self, stmts: &mut Vec<Stmt>, reloc: Jump, size: Size) {
        let data = [0, size.in_bytes()];
        let ghost before = stmt_views(stmts@);
        let zeroed = Stmt::zeroed(size);
        let record = reloc.encode(data.as_slice());
        assert(data@ =~= seq![0u8, size.bytes() as u8]);
        stmts.push(zeroed);
        stmts.push(record);
        assert(stmt_views(stmts@) =~= before + seq![zeroed@, record@]);
    }

    /// The byte of the instruction that does nothing.
    fn default_align(&self) -> (r: u8) {
        0x90
    }
}

/// The architecture of x86: the encoder in 32-bit mode, with the features that are
/// active.
#[derive(Clone, Debug, PartialEq, Eq)]
pub struct Archx86 {
    features: x64data::Features,
}

impl Archx86 {
    /// The features that are active.
    pub closed spec fn active(&self) -> x64data::Features {
        self.features
    }

    /// The architecture with the features `features`.
    pub closed spec fn spec_new(features: x64data::Features) -> Archx86 {
        Archx86 { features }
    }

    /// The architecture is what its features are.
    pub broadcast proof fn lemma_spec_new(features: x64data::Features)
        ensures
            (#[trigger] Archx86::spec_new(features)).active() == features,
    {
    }

    /// Two architectures with the same features are the same.
    pub proof fn lemma_determined(a: Archx86, b: Archx86)
        requires
            a.active() == b.active(),
        ensures
            a == b,
    {
    }

    /// The features that are active.
    pub fn features(&self) -> (r: x64data::Features)
        ensures
            r == self.active(),
    {
        self.features
    }
}

impl Default for Archx86 {
    /// The architecture with all features.
    fn default() -> (r: Archx86)
        ensures
            r.active() == x64data::Features::spec_all(),
    {
        Archx86 { features: x64data::Features::all() }
    }
}

impl Arch for Archx86 {
    open spec fn spec_name(&self) -> Seq<char> {
        "x86"@
    }

    open spec fn with_features(&self, features: Seq<Seq<char>>) -> Self {
        Archx86::spec_new(x64data::Features::of_names(features))
    }

    open spec fn unknown_features(&self, features: Seq<Seq<char>>) -> Seq<Seq<char>> {
        x64data::Features::unknown_names(features)
    }

    /// A slot of zeros, then the record of a relocation that is relative to the end of the
    /// slot: no bytes between the slot and the end of the data, and the size of the slot, and the kind.
    open spec fn static_reloc(&self, reloc: JumpView, size: Size) -> Seq<StmtView> {
        seq![StmtView::Const(Value::zero_spec(size)), reloc.encode(seq![0u8, size.bytes() as u8, 0u8])]
    }

    open spec fn spec_default_align(&self) -> u8 {
        0x90
    }

    fn name(&self) -> (r: &'static str) {
        "x86"
    }

    fn set_features(&mut self, features: &[String]) -> (unknown: Vec<String>) {
        let (new_features, unknown) = x64data::Features::from_names(features);
        self.features = new_features;
        proof {
            broadcast use Archx86::lemma_spec_new;
            Archx86::lemma_determined(*self, old(self).with_features(string_views(features@)));
        }
        unknown
    }

    fn handle_static_reloc(&self, stmts: &mut Vec<Stmt>, reloc: Jump, size: Size) {
        let data = [0, size.in_bytes(), 0];
        let ghost before = stmt_views(stmts@);
        let zeroed = Stmt::zeroed(size);
        let record = reloc.encode(data.as_slice());
        assert(data@ =~= seq![0u8, size.bytes() as u8, 0u8]);
        stmts.push(zeroed);
        stmts.push(record);
        assert(stmt_views(stmts@) =~= before + seq![zeroed@, record@]);
    }

    /// The byte of the instruction that does nothing.
    fn default_align(&self) -> (r: u8) {
        0x90
    }
}

/// An instruction for the encoder in 64-bit mode.
#[derive(Debug, Clone, PartialEq, Eq)]
pub struct InstructionX64 {
    pub inst: ast::Instruction,
    pub args: Vec<ast::CleanArg>,
}

/// An instruction for the encoder in 32-bit mode.
#[derive(Debug, Clone, PartialEq, Eq)]
pub struct InstructionX86 {
    pub inst: ast::Instruction,
    pub args: Vec<ast::CleanArg>,
}

/// Expression builders that take the instructions of x64.
pub trait AssembleX64: BasicExprBuilder + Sized {
    /// Turn an instruction into binary format, see [`compiler::compiled`].
    /// May error when dynamic data is present at bad locations such as memory address scaling.
    fn compile_instruction(
        &mut self,
        arch: &Archx64,
        instruction: InstructionX64,
    ) -> (r: Result<(), Error>)
        requires
            instruction.inst@.len() > 0,
        ensures
            compiler::compiled(
                old(self),
                final(self),
                X86Mode::Long,
                arch.active(),
                instruction.inst@,
                ast::clean_views(instruction.args@),
                r,
            ),
    ;

    /// Create an instruction composed from dynamic data, see [`compiler::compiled`].
    fn build_instruction(
        &mut self,
        arch: &Archx64,
        instruction: InstructionX64,
    ) -> (r: Result<(), Error>)
        requires
            instruction.inst@.len() > 0,
        ensures
            compiler::compiled(
                old(self),
                final(self),
                X86Mode::Long,
                arch.active(),
                instruction.inst@,
                ast::clean_views(instruction.args@),
                r,
            ),
    ;
}

/// Expression builders that take the instructions of x86.
pub trait AssembleX86: BasicExprBuilder + Sized {
    /// Turn an instruction into binary format, see [`compiler::compiled`].
    /// May error when dynamic data is present at bad locations such as memory address scaling.
    fn compile_instruction(
        &mut self,
        arch: &Archx86,
        instruction: InstructionX86,
    ) -> (r: Result<(), Error>)
        requires
            instruction.inst@.len() > 0,
        ensures
            compiler::compiled(
                old(self),
                final(self),
                X86Mode::Protected,
                arch.active(),
                instruction.inst@,
                ast::clean_views(instruction.args@),
                r,
            ),
    ;

    /// Create an instruction composed from dynamic data, see [`compiler::compiled`].
    fn build_instruction(
        &mut self,
        arch: &Archx86,
        instruction: InstructionX86,
    ) -> (r: Result<(), Error>)
        requires
            instruction.inst@.len() > 0,
        ensures
            compiler::compiled(
                old(self),
                final(self),
                X86Mode::Protected,
                arch.active(),
                instruction.inst@,
                ast::clean_views(instruction.args@),
                r,
            ),
    ;
}

impl AssembleX64 for State {
    fn compile_instruction(&mut self, arch: &Archx64, instruction: InstructionX64) -> (r: Result<(), Error>) {
        let InstructionX64 { inst, args } = instruction;
        compiler::compile_instruction(self, X86Mode::Long, arch.features(), inst, args)
    }

    fn build_instruction(&mut self, arch: &Archx64, instruction: InstructionX64) -> (r: Result<(), Error>) {
        let InstructionX64 { inst, args } = instruction;
        compiler::compile_instruction(self, X86Mode::Long, arch.features(), inst, args)
    }
}

impl AssembleX86 for State {
    fn compile_instruction(&mut self, arch: &Archx86, instruction: InstructionX86) -> (r: Result<(), Error>) {
        let InstructionX86 { inst, args } = instruction;
        compiler::compile_instruction(self, X86Mode::Protected, arch.features(), inst, args)
    }

    fn build_instruction(&mut self, arch: &Archx86, instruction: InstructionX86) -> (r: Result<(), Error>) {
        let InstructionX86 { inst, args } = instruction;
        compiler::compile_instruction(self, X86Mode::Protected, arch.features(), inst, args)
    }
}

} // verus!
